//! Binding groups to a shader: the entries of a group take consecutive binding
//! numbers, and the groups fill the shader's group layouts in order.

use vstd::prelude::*;

verus! {

/// Collects the entries of a bind group: each resource takes the next binding
/// number, from zero.
pub struct Visitor<R>(Vec<(u32, R)>);

impl<R> Visitor<R> {
    #[verifier::type_invariant]
    spec fn numbered_from_zero(&self) -> bool {
        numbered(self.0@)
    }

    pub closed spec fn entries_seq(&self) -> Seq<(u32, R)> {
        self.0@
    }

    /// A visitor with no entries.
    pub fn new() -> (v: Self)
        ensures
            v.entries_seq() == Seq::<(u32, R)>::empty(),
    {
        Visitor(Vec::new())
    }

    /// Adds a resource with the next binding number.
    pub fn push(&mut self, resource: R)
        requires
            old(self).entries_seq().len() < u32::MAX,
        ensures
            final(self).entries_seq() == old(self).entries_seq().push(
                (old(self).entries_seq().len() as u32, resource),
            ),
    {
        proof {
            use_type_invariant(&*self);
        }
        let binding = self.0.len() as u32;
        let mut entries: Vec<(u32, R)> = Vec::new();
        std::mem::swap(&mut entries, &mut self.0);
        entries.push((binding, resource));
        self.0 = entries;
    }

    /// Drops the entries, to visit the next group.
    pub fn clear(&mut self)
        ensures
            final(self).entries_seq() == Seq::<(u32, R)>::empty(),
    {
        self.0 = Vec::new();
    }

    /// The entries: binding numbers and resources, numbered from zero one after
    /// another.
    pub fn entries(&self) -> (e: &[(u32, R)])
        ensures
            e@ == self.entries_seq(),
            numbered(e@),
    {
        proof {
            use_type_invariant(self);
        }
        self.0.as_slice()
    }
}

/// The bindings of a visitor are numbered from zero, one after another.
pub open spec fn numbered<R>(entries: Seq<(u32, R)>) -> bool {
    forall|i: int| 0 <= i < entries.len() ==> #[trigger] entries[i].0 == i
}

/// Fills the groups of a shader in order, one for each of its group layouts.
pub struct Binder<G> {
    layouts: usize,
    groups: Vec<G>,
}

impl<G> Binder<G> {
    /// The number of group layouts of the shader.
    pub closed spec fn layout_count(&self) -> nat {
        self.layouts as nat
    }

    /// The groups added so far.
    pub closed spec fn added(&self) -> Seq<G> {
        self.groups@
    }

    /// A binder for a shader with `layouts` group layouts.
    pub fn new(layouts: usize) -> (b: Self)
        ensures
            b.layout_count() == layouts,
            b.added() == Seq::<G>::empty(),
    {
        Binder { layouts, groups: Vec::new() }
    }

    /// The number of the next group, if the shader has one more.
    pub fn next_id(&self) -> (id: Option<usize>)
        ensures
            id == (if self.added().len() < self.layout_count() {
                Some(self.added().len() as usize)
            } else {
                None::<usize>
            }),
    {
        if self.groups.len() < self.layouts {
            Some(self.groups.len())
        } else {
            None
        }
    }

    /// Adds the next group and returns its number. The shader must have a layout
    /// left for it.
    pub fn add(&mut self, group: G) -> (id: usize)
        requires
            old(self).added().len() < old(self).layout_count(),
        ensures
            id == old(self).added().len(),
            final(self).added() == old(self).added().push(group),
            final(self).layout_count() == old(self).layout_count(),
    {
        let id = self.groups.len();
        self.groups.push(group);
        id
    }

    /// Whether every layout has its group.
    pub fn is_complete(&self) -> (b: bool)
        ensures
            b == (self.added().len() == self.layout_count()),
    {
        self.groups.len() == self.layouts
    }

    /// The groups, once every layout has its group.
    pub fn into_binding(self) -> (g: Vec<G>)
        requires
            self.added().len() == self.layout_count(),
        ensures
            g@ == self.added(),
    {
        self.groups
    }
}

/// The bind groups of a binding, which can be replaced one at a time.
pub struct BindGroups<G>(Vec<G>);

impl<G> BindGroups<G> {
    pub closed spec fn groups(&self) -> Seq<G> {
        self.0@
    }

    pub fn new(groups: Vec<G>) -> (b: Self)
        ensures
            b.groups() == groups@,
    {
        BindGroups(groups)
    }

    /// Replaces the group numbered `id`.
    pub fn replace(&mut self, id: usize, group: G)
        requires
            id < old(self).groups().len(),
        ensures
            final(self).groups() == old(self).groups().update(id as int, group),
    {
        self.0.set(id, group);
    }

    /// The groups in order.
    pub fn as_slice(&self) -> (s: &[G])
        ensures
            s@ == self.groups(),
    {
        self.0.as_slice()
    }
}

} // verus!
