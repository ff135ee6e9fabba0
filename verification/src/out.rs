//! A text buffer for generated shader source.

use vstd::prelude::*;

verus! {

/// The text of a decimal digit.
pub open spec fn digit(d: nat) -> Seq<char> {
    if d == 0 {
        "0"@
    } else if d == 1 {
        "1"@
    } else if d == 2 {
        "2"@
    } else if d == 3 {
        "3"@
    } else if d == 4 {
        "4"@
    } else if d == 5 {
        "5"@
    } else if d == 6 {
        "6"@
    } else if d == 7 {
        "7"@
    } else if d == 8 {
        "8"@
    } else {
        "9"@
    }
}

/// The decimal text of a natural number, as `Display` writes it.
pub open spec fn dec(n: nat) -> Seq<char>
    decreases n,
{
    if n < 10 {
        digit(n)
    } else {
        dec(n / 10) + digit(n % 10)
    }
}

/// The items joined by the separator.
pub open spec fn joined(items: Seq<Seq<char>>, sep: Seq<char>) -> Seq<char>
    decreases items.len(),
{
    if items.len() == 0 {
        Seq::empty()
    } else if items.len() == 1 {
        items[0]
    } else {
        joined(items.drop_last(), sep) + sep + items.last()
    }
}

/// The items joined by the separator, or the default text when there are no items.
pub open spec fn joined_or(items: Seq<Seq<char>>, sep: Seq<char>, default: Seq<char>) -> Seq<char> {
    if items.len() == 0 {
        default
    } else {
        joined(items, sep)
    }
}

/// The text of a digit.
fn digit_str(d: u32) -> (s: &'static str)
    requires
        d < 10,
    ensures
        s@ == digit(d as nat),
{
    if d == 0 {
        "0"
    } else if d == 1 {
        "1"
    } else if d == 2 {
        "2"
    } else if d == 3 {
        "3"
    } else if d == 4 {
        "4"
    } else if d == 5 {
        "5"
    } else if d == 6 {
        "6"
    } else if d == 7 {
        "7"
    } else if d == 8 {
        "8"
    } else {
        "9"
    }
}

/// The output buffer.
pub struct Out {
    buf: String,
}

impl View for Out {
    type V = Seq<char>;

    closed spec fn view(&self) -> Seq<char> {
        self.buf@
    }
}

impl Out {
    /// Creates an empty buffer.
    pub fn new() -> (o: Self)
        ensures
            o@ == Seq::<char>::empty(),
    {
        Out { buf: String::new() }
    }

    /// Appends the decimal text of a number.
    pub fn write(&mut self, n: u32) -> (r: &mut Self)
        ensures
            r@ == old(self)@ + dec(n as nat),
            final(self)@ == final(r)@,
        decreases n,
    {
        if n >= 10 {
            self.write(n / 10);
        }
        self.write_str(digit_str(n % 10));
        self
    }

    /// Appends the decimal text of a 64-bit number.
    pub fn write_u64(&mut self, n: u64) -> (r: &mut Self)
        ensures
            r@ == old(self)@ + dec(n as nat),
            final(self)@ == final(r)@,
        decreases n,
    {
        if n >= 10 {
            self.write_u64(n / 10);
        }
        self.write_str(digit_str((n % 10) as u32));
        self
    }

    /// Appends a string.
    pub fn write_str(&mut self, s: &str) -> (r: &mut Self)
        ensures
            r@ == old(self)@ + s@,
            final(self)@ == final(r)@,
    {
        self.buf.append(s);
        self
    }

    /// Starts a list of items separated by `sep`.
    pub fn separated(&self, sep: &'static str) -> (r: Separated)
        ensures
            r.sep_text() == sep@,
            !r.added(),
    {
        Separated { sep, add: false }
    }

    /// The text written so far.
    pub fn as_str(&self) -> (s: &str)
        ensures
            s@ == self@,
    {
        self.buf.as_str()
    }

    /// Takes the text out of the buffer.
    pub fn into_string(self) -> (s: String)
        ensures
            s@ == self@,
    {
        self.buf
    }
}

/// A list of items written into an [`Out`] with a separator between them.
pub struct Separated {
    sep: &'static str,
    add: bool,
}

impl Separated {
    /// The separator.
    pub closed spec fn sep_text(&self) -> Seq<char> {
        self.sep@
    }

    /// Whether an item was already started.
    pub closed spec fn added(&self) -> bool {
        self.add
    }

    /// Starts the next item: writes the separator unless it is the first one.
    pub fn out<'o>(&mut self, o: &'o mut Out) -> (r: &'o mut Out)
        ensures
            r@ == (if old(self).added() { old(o)@ + old(self).sep_text() } else { old(o)@ }),
            final(self).added(),
            final(self).sep_text() == old(self).sep_text(),
            final(o)@ == final(r)@,
    {
        if self.add {
            o.write_str(self.sep);
        } else {
            self.add = true;
        }
        o
    }

    /// Writes the default text if no item was written.
    pub fn write_default(&mut self, o: &mut Out, s: &str)
        ensures
            final(o)@ == (if old(self).added() { old(o)@ } else { old(o)@ + s@ }),
            *final(self) == *old(self),
    {
        if !self.add {
            o.write_str(s);
        }
    }
}

/// `joined` of a list with one more item.
pub proof fn lemma_joined_push(items: Seq<Seq<char>>, sep: Seq<char>, x: Seq<char>)
    ensures
        joined(items.push(x), sep) == (if items.len() == 0 {
            x
        } else {
            joined(items, sep) + sep + x
        }),
{
    assert(items.push(x).drop_last() =~= items);
    if items.len() == 0 {
        assert(items.push(x).len() == 1);
    }
}

impl Separated {
    /// Whether the text `o` holds `start` followed by the `items` joined by the
    /// separator, and an item was started exactly when there are items.
    pub open spec fn lists(&self, o: Seq<char>, start: Seq<char>, items: Seq<Seq<char>>) -> bool {
        &&& o == start + joined(items, self.sep_text())
        &&& self.added() == (items.len() > 0)
    }
}

/// A list just started, as `separated` gives it, lists no items after the text
/// already written.
pub proof fn lemma_separated_starts_empty(s: Separated, o: Seq<char>)
    requires
        !s.added(),
    ensures
        s.lists(o, o, Seq::empty()),
{
    assert(o + joined(Seq::<Seq<char>>::empty(), s.sep_text()) =~= o);
}

/// Starting an item with `out` (which gives `t` from `s`) and writing `x` lists one
/// more item: the separator stands only between items, never before the first or
/// after the last.
pub proof fn lemma_separated_item(
    s: Separated,
    t: Separated,
    o: Seq<char>,
    start: Seq<char>,
    items: Seq<Seq<char>>,
    x: Seq<char>,
)
    requires
        s.lists(o, start, items),
        t.added(),
        t.sep_text() == s.sep_text(),
    ensures
        t.lists(
            (if s.added() {
                o + s.sep_text()
            } else {
                o
            }) + x,
            start,
            items.push(x),
        ),
{
    lemma_joined_push(items, s.sep_text(), x);
    if s.added() {
        assert(o + s.sep_text() + x =~= start + joined(items.push(x), t.sep_text()));
    } else {
        assert(o + x =~= start + joined(items.push(x), t.sep_text()));
    }
}

/// `write_default` writes the default text exactly when no item was started: the
/// text is then the items joined by the separator, or the default when there are
/// none.
pub proof fn lemma_separated_default(
    s: Separated,
    o: Seq<char>,
    start: Seq<char>,
    items: Seq<Seq<char>>,
    d: Seq<char>,
)
    requires
        s.lists(o, start, items),
    ensures
        (if s.added() {
            o
        } else {
            o + d
        }) == start + joined_or(items, s.sep_text(), d),
{
    if !s.added() {
        assert(start + joined(items, s.sep_text()) =~= start);
    }
}

/// The text `o` after one more item `x` of a list: `out` writes the separator when
/// an item was already started, then the item is written.
pub open spec fn item_written(o: Seq<char>, added: bool, sep: Seq<char>, x: Seq<char>) -> Seq<char> {
    (if added {
        o + sep
    } else {
        o
    }) + x
}

/// The text `o` after the `items` are written one after the other as items of a
/// list, `added` telling whether an item of it was already started.
pub open spec fn items_written(o: Seq<char>, added: bool, sep: Seq<char>, items: Seq<Seq<char>>) -> Seq<char>
    decreases items.len(),
{
    if items.len() == 0 {
        o
    } else {
        items_written(item_written(o, added, sep, items[0]), true, sep, items.drop_first())
    }
}

/// Writing more items into a list that already lists `done` after `start` lists
/// all of them.
proof fn lemma_items_written(
    o: Seq<char>,
    start: Seq<char>,
    done: Seq<Seq<char>>,
    sep: Seq<char>,
    items: Seq<Seq<char>>,
)
    requires
        o == start + joined(done, sep),
    ensures
        items_written(o, done.len() > 0, sep, items) == start + joined(done + items, sep),
    decreases items.len(),
{
    if items.len() == 0 {
        assert(done + items =~= done);
    } else {
        let x = items[0];
        lemma_joined_push(done, sep, x);
        if done.len() > 0 {
            assert(item_written(o, true, sep, x) =~= start + joined(done.push(x), sep));
        } else {
            assert(item_written(o, false, sep, x) =~= start + joined(done.push(x), sep));
        }
        lemma_items_written(item_written(o, done.len() > 0, sep, x), start, done.push(x), sep, items.drop_first());
        assert(done.push(x) + items.drop_first() =~= done + items);
    }
}

/// A list started after the text `s0` and given the `items` one by one (each with
/// `out` and then a write) holds `s0` followed by the items with the separator only
/// between them, none before the first or after the last; no items leave `s0`.
/// A `write_default` then adds its text exactly when there were no items.
pub proof fn lemma_separated_items(s0: Seq<char>, sep: Seq<char>, items: Seq<Seq<char>>, d: Seq<char>)
    ensures
        items_written(s0, false, sep, items) == s0 + joined(items, sep),
        items.len() == 0 ==> items_written(s0, false, sep, items) == s0,
        (if items.len() > 0 {
            items_written(s0, false, sep, items)
        } else {
            items_written(s0, false, sep, items) + d
        }) == s0 + joined_or(items, sep, d),
{
    assert(s0 + joined(Seq::<Seq<char>>::empty(), sep) =~= s0);
    lemma_items_written(s0, s0, Seq::empty(), sep, items);
    assert(Seq::<Seq<char>>::empty() + items =~= items);
}

} // verus!
