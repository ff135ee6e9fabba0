//! Light spaces: 3d textures that color the world.

use vstd::prelude::*;

use crate::nodes::{struct_text, Binding, Field, Location, Name, Struct, Type, Var};
use crate::out::{dec, Out};

verus! {

/// The light space kind: the number of color components in the space.
#[derive(Clone, Copy, PartialEq, Eq, Structural)]
pub enum SpaceKind {
    Rgba,
    Gray,
}

/// The fields of the `Space` struct.
pub open spec fn space_fields() -> Seq<Field> {
    seq![
        Field { location: Location::Absent, name: Name::Str("model"), ty: Type::Simple("mat4x4<f32>") },
        Field { location: Location::Absent, name: Name::Str("col"), ty: Type::Simple("vec3<f32>") },
    ]
}

/// The variable of the space array.
pub open spec fn spaces_var(b: Binding, len: nat) -> Var {
    Var {
        binding: b,
        uniform: true,
        name: Name::Str("spaces"),
        ty: Type::Array { ty: "Space", size: len as u8 },
    }
}

/// The texture variable of the `n`-th space.
pub open spec fn tspace_var(b: Binding, n: nat) -> Var {
    Var {
        binding: b,
        uniform: false,
        name: Name::Num { str: "tspace", n: n as u32 },
        ty: Type::Simple("texture_3d<f32>"),
    }
}

/// The sampler variable of the spaces.
pub open spec fn sspace_var(b: Binding) -> Var {
    Var { binding: b, uniform: false, name: Name::Str("sspace"), ty: Type::Simple("sampler") }
}

/// The texture declarations of the first `k` spaces, from binding `start` on.
pub open spec fn tspaces_text(k: nat, group: u32, start: u32) -> Seq<char>
    decreases k,
{
    if k == 0 {
        Seq::empty()
    } else {
        tspaces_text((k - 1) as nat, group, start) + tspace_var(
            Binding { group, binding: (start + k - 1) as u32 },
            (k - 1) as nat,
        ).text()
    }
}

/// The declarations of `len` spaces at the binding `b`: the space array, one texture per
/// space and the sampler.
pub open spec fn spaces_declare_text(len: nat, b: Binding) -> Seq<char> {
    if len == 0 {
        Seq::empty()
    } else {
        spaces_var(b, len).text() + tspaces_text(len, b.group, (b.binding + 1) as u32)
            + sspace_var(Binding { group: b.group, binding: (b.binding + 1 + len) as u32 }).text()
    }
}

impl SpaceKind {
    /// The color components the space is read with.
    pub open spec fn components(self) -> Seq<char> {
        match self {
            SpaceKind::Rgba => ".rgb"@,
            SpaceKind::Gray => ".rrr"@,
        }
    }

    /// The text that samples the space number `index` into `name` and adds it to `space`.
    pub open spec fn calc_text(self, name: Seq<char>, index: nat) -> Seq<char> {
        "var "@ + name + " = textureSampleLevel(tspace_"@ + dec(index) + ", sspace, out.space_"@
            + dec(index) + ", 0.);\n    "@ + "space = "@ + if index == 0 {
            name + self.components() + " * spaces["@ + dec(index) + "].col;\n    "@
        } else {
            "max(space, "@ + name + self.components() + " * spaces["@ + dec(index)
                + "].col);\n    "@
        }
    }

    fn components_str(self) -> (s: &'static str)
        ensures
            s@ == self.components(),
    {
        match self {
            SpaceKind::Rgba => ".rgb",
            SpaceKind::Gray => ".rrr",
        }
    }

    /// Writes the sampling of the space number `index` into the variable `name`.
    pub fn calc(self, name: &str, index: u32, o: &mut Out)
        ensures
            final(o)@ == old(o)@ + self.calc_text(name@, index as nat),
    {
        o.write_str("var ").write_str(name).write_str(" = textureSampleLevel(tspace_").write(
            index,
        ).write_str(", sspace, out.space_").write(index).write_str(", 0.);\n    ").write_str(
            "space = ",
        );
        if index == 0 {
            o.write_str(name).write_str(self.components_str()).write_str(" * spaces[").write(
                index,
            ).write_str("].col;\n    ");
        } else {
            o.write_str("max(space, ").write_str(name).write_str(self.components_str()).write_str(
                " * spaces[",
            ).write(index).write_str("].col);\n    ");
        }
    }
}

/// The bindings of the light spaces.
#[derive(Clone)]
pub struct SpaceBindings {
    pub spaces: u32,
    pub tspaces: Vec<u32>,
    pub sspace: u32,
}

impl SpaceBindings {
    /// No bindings.
    pub fn empty() -> (r: Self)
        ensures
            r.spaces == 0,
            r.tspaces@ == Seq::<u32>::empty(),
            r.sspace == 0,
    {
        SpaceBindings { spaces: 0, tspaces: Vec::new(), sspace: 0 }
    }

    /// Whether there are no light spaces.
    pub fn is_empty(&self) -> (b: bool)
        ensures
            b == (self.tspaces@.len() == 0),
    {
        self.tspaces.len() == 0
    }
}

/// The light spaces of a shader, at most four.
#[derive(Clone, Copy)]
pub struct LightSpaces(&'static [SpaceKind]);

impl LightSpaces {
    #[verifier::type_invariant]
    spec fn at_most_four(self) -> bool {
        self.0@.len() <= 4
    }

    /// The kinds of the spaces.
    pub closed spec fn kinds(self) -> Seq<SpaceKind> {
        self.0@
    }

    /// The type definitions the spaces need.
    pub open spec fn type_text(self) -> Seq<char> {
        if self.kinds().len() == 0 {
            Seq::empty()
        } else {
            struct_text("Space"@, space_fields())
        }
    }

    /// No light spaces.
    pub fn empty() -> (r: Self)
        ensures
            r.kinds() == Seq::<SpaceKind>::empty(),
    {
        let e: &'static [SpaceKind] = &[];
        assert(e@ =~= Seq::<SpaceKind>::empty());
        LightSpaces(e)
    }

    /// Creates the light spaces. There can be at most four of them.
    pub fn new(spaces: &'static [SpaceKind]) -> (r: Self)
        requires
            spaces@.len() <= 4,
        ensures
            r.kinds() == spaces@,
    {
        LightSpaces(spaces)
    }

    /// The number of spaces.
    pub fn len(&self) -> (n: usize)
        ensures
            n == self.kinds().len(),
            n <= 4,
    {
        proof {
            use_type_invariant(self);
        }
        self.0.len()
    }

    /// Whether there are no spaces.
    pub fn is_empty(&self) -> (b: bool)
        ensures
            b == (self.kinds().len() == 0),
    {
        self.0.len() == 0
    }

    /// Writes the `Space` struct definition when there are spaces.
    pub fn define_type(&self, o: &mut Out)
        ensures
            final(o)@ == old(o)@ + self.type_text(),
    {
        if self.is_empty() {
            return ;
        }
        let mut fields = Vec::new();
        fields.push(
            Field { location: Location::Absent, name: Name::Str("model"), ty: Type::mat4() },
        );
        fields.push(Field { location: Location::Absent, name: Name::Str("col"), ty: Type::vec3() });
        let s = Struct { name: "Space", fields };
        assert(s.fields@ =~= space_fields());
        s.write_to(o);
    }

    /// Declares the space array, a texture per space and the sampler.
    pub fn declare_group(&self, binding: &mut Binding, o: &mut Out) -> (r: SpaceBindings)
        requires
            self.kinds().len() > 0 ==> old(binding).binding + self.kinds().len() + 2 <= u32::MAX,
        ensures
            r.tspaces@.len() == self.kinds().len(),
            r.tspaces@.len() == 0 <==> self.kinds().len() == 0,
            self.kinds().len() == 0 ==> {
                &&& r.spaces == 0 && r.sspace == 0
                &&& *final(binding) == *old(binding)
                &&& final(o)@ == old(o)@
            },
            self.kinds().len() > 0 ==> {
                &&& r.spaces == old(binding).binding
                &&& r.tspaces@ == Seq::new(
                    self.kinds().len(),
                    |i: int| (old(binding).binding + 1 + i) as u32,
                )
                &&& r.sspace == old(binding).binding + 1 + self.kinds().len()
                &&& *final(binding) == (Binding {
                    group: old(binding).group,
                    binding: (old(binding).binding + 2 + self.kinds().len()) as u32,
                })
            },
            final(o)@ == old(o)@ + spaces_declare_text(self.kinds().len(), *old(binding)),
    {
        proof {
            use_type_invariant(self);
        }
        if self.is_empty() {
            return SpaceBindings::empty();
        }
        let ghost b0 = *old(binding);
        let len = self.0.len();
        let sb = binding.next();
        let spaces_v = Var {
            binding: sb,
            uniform: true,
            name: Name::Str("spaces"),
            ty: Type::Array { ty: "Space", size: len as u8 },
        };
        spaces_v.write_to(o);
        let ghost after_spaces = o@;
        let mut tspaces: Vec<u32> = Vec::new();
        let mut n: usize = 0;
        while n < len
            invariant
                len == self.kinds().len(),
                len <= 4,
                b0.binding + len + 2 <= u32::MAX,
                n <= len,
                *binding == (Binding { group: b0.group, binding: (b0.binding + 1 + n) as u32 }),
                tspaces@ == Seq::new(n as nat, |i: int| (b0.binding + 1 + i) as u32),
                o@ == after_spaces + tspaces_text(n as nat, b0.group, (b0.binding + 1) as u32),
            decreases len - n,
        {
            let b = binding.next();
            let v = Var {
                binding: b,
                uniform: false,
                name: Name::Num { str: "tspace", n: n as u32 },
                ty: Type::texture3d(),
            };
            v.write_to(o);
            tspaces.push(b.get());
            assert(tspaces@ =~= Seq::new((n + 1) as nat, |i: int| (b0.binding + 1 + i) as u32));
            n = n + 1;
        }
        let ss = binding.next();
        let sspace_v = Var {
            binding: ss,
            uniform: false,
            name: Name::Str("sspace"),
            ty: Type::sampler(),
        };
        sspace_v.write_to(o);
        SpaceBindings { spaces: sb.get(), tspaces, sspace: ss.get() }
    }

    /// The spaces with their numbers.
    pub fn enumerate(&self) -> (r: Vec<(u32, SpaceKind)>)
        ensures
            r@.len() == self.kinds().len(),
            r@.len() <= 4,
            forall|i: int| 0 <= i < r@.len() ==> #[trigger] r@[i] == (i as u32, self.kinds()[i]),
    {
        proof {
            use_type_invariant(self);
        }
        let spaces = self.0;
        let mut res: Vec<(u32, SpaceKind)> = Vec::new();
        let mut n: usize = 0;
        while n < spaces.len()
            invariant
                spaces@ == self.kinds(),
                spaces@.len() <= 4,
                n <= spaces@.len(),
                res@.len() == n,
                forall|i: int| 0 <= i < n ==> #[trigger] res@[i] == (i as u32, spaces@[i]),
            decreases spaces@.len() - n,
        {
            res.push((n as u32, spaces[n]));
            n = n + 1;
        }
        res
    }
}

} // verus!
