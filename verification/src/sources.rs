//! Point light sources: arrays of lights that glow or gloom.

use vstd::prelude::*;

use crate::nodes::{struct_text, Binding, Field, Location, Name, Struct, Type, Var};
use crate::out::Out;

verus! {

/// The kind of the light sources in an array.
#[derive(Clone, Copy, PartialEq, Eq, Structural)]
pub enum SourceKind {
    Glow,
    Gloom,
}

/// An array of light sources of one kind.
#[derive(Clone, Copy)]
pub struct SourceArray {
    kind: SourceKind,
    size: u8,
}

impl SourceArray {
    /// The kind of the sources.
    pub closed spec fn kind_of(self) -> SourceKind {
        self.kind
    }

    /// The number of sources the array holds.
    pub closed spec fn size_of_array(self) -> u8 {
        self.size
    }

    /// Creates a source array. The size must be in `1..=127`.
    pub fn new(kind: SourceKind, size: u8) -> (r: Self)
        requires
            size != 0,
            size <= 127,
        ensures
            r.kind_of() == kind,
            r.size_of_array() == size,
    {
        SourceArray { kind, size }
    }

    /// The kind of the sources.
    pub fn kind(self) -> (k: SourceKind)
        ensures
            k == self.kind_of(),
    {
        self.kind
    }

    /// The number of sources the array holds.
    pub fn size(self) -> (n: u8)
        ensures
            n == self.size_of_array(),
    {
        self.size
    }
}

/// The bindings of one source array: the array itself and its length.
#[derive(Clone, Copy, PartialEq, Eq, Structural)]
pub struct SourceBindings {
    pub binding_array: u32,
    pub binding_len: u32,
    pub size: u8,
}

/// The fields of the `Source` struct.
pub open spec fn source_fields() -> Seq<Field> {
    seq![
        Field { location: Location::Absent, name: Name::Str("col"), ty: Type::Simple("vec3<f32>") },
        Field { location: Location::Absent, name: Name::Str("rad"), ty: Type::Simple("f32") },
        Field { location: Location::Absent, name: Name::Str("pos"), ty: Type::Simple("vec3<f32>") },
    ]
}

/// The fields of the `Len` struct.
pub open spec fn len_fields() -> Seq<Field> {
    seq![
        Field { location: Location::Absent, name: Name::Str("n"), ty: Type::Simple("u32") },
        Field { location: Location::Absent, name: Name::Str("pad0"), ty: Type::Simple("u32") },
        Field { location: Location::Absent, name: Name::Str("pad1"), ty: Type::Simple("u32") },
        Field { location: Location::Absent, name: Name::Str("pad2"), ty: Type::Simple("u32") },
    ]
}

/// The variable of the `n`-th source array.
pub open spec fn array_var(b: Binding, n: nat, a: SourceArray) -> Var {
    Var {
        binding: b,
        uniform: true,
        name: Name::Num { str: "sources_array", n: n as u32 },
        ty: Type::Array { ty: "Source", size: a.size_of_array() },
    }
}

/// The variable of the length of the `n`-th source array.
pub open spec fn len_var(b: Binding, n: nat) -> Var {
    Var {
        binding: b,
        uniform: true,
        name: Name::Num { str: "sources_len", n: n as u32 },
        ty: Type::Simple("Len"),
    }
}

/// The bindings of the `i`-th array when the first free binding is `start`.
pub open spec fn source_bindings(arrays: Seq<SourceArray>, start: u32, i: int) -> SourceBindings {
    SourceBindings {
        binding_array: (start + 2 * i) as u32,
        binding_len: (start + 2 * i + 1) as u32,
        size: arrays[i].size_of_array(),
    }
}

/// The declarations of the arrays and their lengths, two bindings per array from `start` on.
pub open spec fn sources_declare_text(arrays: Seq<SourceArray>, group: u32, start: u32) -> Seq<
    char,
>
    decreases arrays.len(),
{
    if arrays.len() == 0 {
        Seq::empty()
    } else {
        let n = (arrays.len() - 1) as nat;
        sources_declare_text(arrays.drop_last(), group, start) + array_var(
            Binding { group, binding: (start + 2 * n) as u32 },
            n,
            arrays.last(),
        ).text() + len_var(Binding { group, binding: (start + 2 * n + 1) as u32 }, n).text()
    }
}

/// The light source arrays of a shader, at most four.
#[derive(Clone, Copy)]
pub struct SourceArrays(&'static [SourceArray]);

impl SourceArrays {
    #[verifier::type_invariant]
    spec fn at_most_four(self) -> bool {
        self.0@.len() <= 4
    }

    /// The arrays.
    pub closed spec fn arrays(self) -> Seq<SourceArray> {
        self.0@
    }

    /// The type definitions the arrays need.
    pub open spec fn type_text(self) -> Seq<char> {
        if self.arrays().len() == 0 {
            Seq::empty()
        } else {
            struct_text("Source"@, source_fields()) + struct_text("Len"@, len_fields())
        }
    }

    /// No source arrays.
    pub fn empty() -> (r: Self)
        ensures
            r.arrays() == Seq::<SourceArray>::empty(),
    {
        let e: &'static [SourceArray] = &[];
        assert(e@ =~= Seq::<SourceArray>::empty());
        SourceArrays(e)
    }

    /// Creates the source arrays. There can be at most four of them.
    pub fn new(arrays: &'static [SourceArray]) -> (r: Self)
        requires
            arrays@.len() <= 4,
        ensures
            r.arrays() == arrays@,
    {
        SourceArrays(arrays)
    }

    /// The number of arrays.
    pub fn len(&self) -> (n: usize)
        ensures
            n == self.arrays().len(),
            n <= 4,
    {
        proof {
            use_type_invariant(self);
        }
        self.0.len()
    }

    /// Whether there are no arrays.
    pub fn is_empty(&self) -> (b: bool)
        ensures
            b == (self.arrays().len() == 0),
    {
        self.0.len() == 0
    }

    /// Writes the `Source` and `Len` struct definitions when there are arrays.
    pub fn define_type(&self, o: &mut Out)
        ensures
            final(o)@ == old(o)@ + self.type_text(),
    {
        if self.is_empty() {
            return ;
        }
        let mut source = Vec::new();
        source.push(
            Field { location: Location::Absent, name: Name::Str("col"), ty: Type::vec3() },
        );
        source.push(
            Field { location: Location::Absent, name: Name::Str("rad"), ty: Type::float32() },
        );
        source.push(
            Field { location: Location::Absent, name: Name::Str("pos"), ty: Type::vec3() },
        );
        let mut len = Vec::new();
        len.push(Field { location: Location::Absent, name: Name::Str("n"), ty: Type::uint32() });
        len.push(
            Field { location: Location::Absent, name: Name::Str("pad0"), ty: Type::uint32() },
        );
        len.push(
            Field { location: Location::Absent, name: Name::Str("pad1"), ty: Type::uint32() },
        );
        len.push(
            Field { location: Location::Absent, name: Name::Str("pad2"), ty: Type::uint32() },
        );
        let s = Struct { name: "Source", fields: source };
        let l = Struct { name: "Len", fields: len };
        assert(s.fields@ =~= source_fields());
        assert(l.fields@ =~= len_fields());
        s.write_to(o);
        l.write_to(o);
    }

    /// Declares the array and length variables of each source array, two bindings per array.
    pub fn declare_group(&self, binding: &mut Binding, o: &mut Out) -> (r: Vec<SourceBindings>)
        requires
            old(binding).binding + 2 * self.arrays().len() <= u32::MAX,
        ensures
            r@.len() == self.arrays().len(),
            forall|i: int|
                0 <= i < r@.len() ==> #[trigger] r@[i] == source_bindings(
                    self.arrays(),
                    old(binding).binding,
                    i,
                ),
            *final(binding) == (Binding {
                group: old(binding).group,
                binding: (old(binding).binding + 2 * self.arrays().len()) as u32,
            }),
            final(o)@ == old(o)@ + sources_declare_text(
                self.arrays(),
                old(binding).group,
                old(binding).binding,
            ),
    {
        let ghost start = old(binding).binding;
        let ghost group = old(binding).group;
        let ghost text = old(o)@;
        proof {
            use_type_invariant(self);
        }
        let arrays = self.0;
        let mut res: Vec<SourceBindings> = Vec::new();
        let mut n: usize = 0;
        while n < arrays.len()
            invariant
                arrays@ == self.arrays(),
                arrays@.len() <= 4,
                n <= arrays@.len(),
                start + 2 * arrays@.len() <= u32::MAX,
                *binding == (Binding { group, binding: (start + 2 * n) as u32 }),
                res@.len() == n,
                forall|i: int|
                    0 <= i < n ==> #[trigger] res@[i] == source_bindings(arrays@, start, i),
                o@ == text + sources_declare_text(arrays@.take(n as int), group, start),
            decreases arrays@.len() - n,
        {
            let a = arrays[n];
            let ba = binding.next();
            let var_array = Var {
                binding: ba,
                uniform: true,
                name: Name::Num { str: "sources_array", n: n as u32 },
                ty: Type::Array { ty: "Source", size: a.size() },
            };
            var_array.write_to(o);
            let bl = binding.next();
            let var_len = Var {
                binding: bl,
                uniform: true,
                name: Name::Num { str: "sources_len", n: n as u32 },
                ty: Type::Simple("Len"),
            };
            var_len.write_to(o);
            res.push(SourceBindings { binding_array: ba.get(), binding_len: bl.get(), size: a.size() });
            proof {
                let t = arrays@.take(n + 1);
                assert(t.drop_last() =~= arrays@.take(n as int));
                assert(t.last() == a);
                assert(array_var(Binding { group, binding: (start + 2 * n) as u32 }, n as nat, a)
                    == var_array);
            }
            n = n + 1;
        }
        assert(arrays@.take(n as int) =~= arrays@);
        res
    }

    /// The arrays with their numbers.
    pub fn enumerate(&self) -> (r: Vec<(u32, SourceArray)>)
        ensures
            r@.len() == self.arrays().len(),
            r@.len() <= 4,
            forall|i: int| 0 <= i < r@.len() ==> #[trigger] r@[i] == (i as u32, self.arrays()[i]),
    {
        proof {
            use_type_invariant(self);
        }
        let arrays = self.0;
        let mut res: Vec<(u32, SourceArray)> = Vec::new();
        let mut n: usize = 0;
        while n < arrays.len()
            invariant
                arrays@ == self.arrays(),
                arrays@.len() <= 4,
                n <= arrays@.len(),
                res@.len() == n,
                forall|i: int| 0 <= i < n ==> #[trigger] res@[i] == (i as u32, arrays@[i]),
            decreases arrays@.len() - n,
        {
            res.push((n as u32, arrays[n]));
            n = n + 1;
        }
        res
    }
}

} // verus!
