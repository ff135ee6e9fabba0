//! The vertex stage parts of a shader: instance and vertex inputs, the vertex output and
//! the fragment color.

use vstd::prelude::*;

use crate::nodes::{struct_text, Field, Location, Name, Struct, Type};
use crate::out::{dec, joined, joined_or, lemma_joined_push, Out, Separated};
use crate::sources::{SourceArray, SourceArrays, SourceKind};
use crate::spaces::{LightSpaces, SpaceKind};
use crate::view::View;
use vstd::view::View as _;

verus! {

/// The number of position components of a vertex.
#[derive(Clone, Copy, PartialEq, Eq, Structural)]
pub enum Dimension {
    D2,
    D3,
}

/// What a vertex carries besides its position.
#[derive(Clone, Copy, PartialEq, Eq, Structural)]
pub struct Fragment {
    pub vertex_color: bool,
    pub vertex_texture: bool,
}

/// A static color, held as the WGSL text of each component.
#[derive(Clone)]
pub struct Color {
    pub r: String,
    pub g: String,
    pub b: String,
}

/// Fields that take consecutive locations from `l` on.
pub open spec fn located(members: Seq<(Name, Type)>, l: Location) -> Seq<Field> {
    Seq::new(
        members.len(),
        |i: int| Field { location: l.advanced_by(i as nat), name: members[i].0, ty: members[i].1 },
    )
}

proof fn lemma_located_push(members: Seq<(Name, Type)>, m: (Name, Type), l: Location)
    ensures
        located(members.push(m), l) =~= located(members, l).push(
            Field { location: l.advanced_by(members.len()), name: m.0, ty: m.1 },
        ),
{
}

proof fn lemma_advanced(l: Location, k: nat)
    requires
        l.can_advance_by(k + 1),
    ensures
        l.advanced_by(k).can_advance(),
        l.advanced_by(k).advanced() == l.advanced_by(k + 1),
        l.can_advance_by(k),
{
}

proof fn lemma_advanced_zero(l: Location)
    ensures
        l.advanced_by(0) == l,
{
}

/// The rows of the instance model matrix.
pub open spec fn instance_members() -> Seq<(Name, Type)> {
    seq![
        (Name::Str("r0"), Type::Simple("vec4<f32>")),
        (Name::Str("r1"), Type::Simple("vec4<f32>")),
        (Name::Str("r2"), Type::Simple("vec4<f32>")),
        (Name::Str("r3"), Type::Simple("vec4<f32>")),
    ]
}

/// The instance input of the vertex stage: the rows of the model matrix.
#[derive(Clone, Copy)]
pub struct InstanceInput;

impl InstanceInput {
    /// Writes the `InstanceInput` struct with four rows from the given location on.
    pub fn define_type(location: &mut Location, o: &mut Out)
        requires
            old(location).can_advance_by(4),
        ensures
            *final(location) == old(location).advanced_by(4),
            final(o)@ == old(o)@ + struct_text(
                "InstanceInput"@,
                located(instance_members(), *old(location)),
            ),
    {
        let ghost l0 = *old(location);
        let names: [&'static str; 4] = ["r0", "r1", "r2", "r3"];
        let mut fields: Vec<Field> = Vec::new();
        let mut i: usize = 0;
        proof {
            lemma_advanced_zero(l0);
        }
        while i < 4
            invariant
                names@ == seq!["r0", "r1", "r2", "r3"],
                l0.can_advance_by(4),
                i <= 4,
                *location == l0.advanced_by(i as nat),
                fields@ =~= located(instance_members().take(i as int), l0),
            decreases 4 - i,
        {
            proof {
                lemma_advanced(l0, i as nat);
                lemma_located_push(instance_members().take(i as int), instance_members()[i as int], l0);
                assert(instance_members().take(i + 1) =~= instance_members().take(i as int).push(
                    instance_members()[i as int],
                ));
            }
            let loc = location.next();
            fields.push(Field { location: loc, name: Name::Str(names[i]), ty: Type::vec4() });
            i = i + 1;
        }
        assert(instance_members().take(4) =~= instance_members());
        let s = Struct { name: "InstanceInput", fields };
        s.write_to(o);
    }
}

/// The WGSL type of a position.
pub open spec fn position_type(d: Dimension) -> Type {
    match d {
        Dimension::D2 => Type::Simple("vec2<f32>"),
        Dimension::D3 => Type::Simple("vec3<f32>"),
    }
}

/// The vertex input of the vertex stage.
#[derive(Clone, Copy)]
pub struct VertexInput {
    pub fragment: Fragment,
    pub pos: Dimension,
}

impl VertexInput {
    /// The members of the vertex input: position, then color and texture map when present.
    pub open spec fn members(self) -> Seq<(Name, Type)> {
        seq![(Name::Str("pos"), position_type(self.pos))] + (if self.fragment.vertex_color {
            seq![(Name::Str("col"), Type::Simple("vec3<f32>"))]
        } else {
            Seq::empty()
        }) + (if self.fragment.vertex_texture {
            seq![(Name::Str("map"), Type::Simple("vec2<f32>"))]
        } else {
            Seq::empty()
        })
    }

    /// The world position computed from the vertex position.
    pub open spec fn world_text(self) -> Seq<char> {
        match self.pos {
            Dimension::D2 => "model * vec4(input.pos, 0., 1.)"@,
            Dimension::D3 => "model * vec4(input.pos, 1.)"@,
        }
    }

    /// Writes the `VertexInput` struct from the given location on.
    pub fn define_type(&self, location: &mut Location, o: &mut Out)
        requires
            old(location).can_advance_by(self.members().len()),
        ensures
            *final(location) == old(location).advanced_by(self.members().len()),
            final(o)@ == old(o)@ + struct_text("VertexInput"@, located(self.members(), *old(location))),
    {
        let ghost l0 = *old(location);
        let ghost ms = self.members();
        let mut fields: Vec<Field> = Vec::new();
        let ty = match self.pos {
            Dimension::D2 => Type::vec2(),
            Dimension::D3 => Type::vec3(),
        };
        let ghost m0 = seq![(Name::Str("pos"), position_type(self.pos))];
        proof {
            lemma_advanced_zero(l0);
            lemma_advanced(l0, 0);
            lemma_located_push(Seq::empty(), m0[0], l0);
            assert(Seq::<(Name, Type)>::empty().push(m0[0]) =~= m0);
        }
        let loc = location.next();
        fields.push(Field { location: loc, name: Name::Str("pos"), ty });
        let ghost mut cur = m0;
        assert(fields@ =~= located(cur, l0));
        if self.fragment.vertex_color {
            let ghost m = (Name::Str("col"), Type::Simple("vec3<f32>"));
            proof {
                lemma_advanced(l0, cur.len());
                lemma_located_push(cur, m, l0);
            }
            let loc = location.next();
            fields.push(Field { location: loc, name: Name::Str("col"), ty: Type::vec3() });
            proof {
                cur = cur.push(m);
            }
        }
        assert(fields@ =~= located(cur, l0));
        if self.fragment.vertex_texture {
            let ghost m = (Name::Str("map"), Type::Simple("vec2<f32>"));
            proof {
                lemma_advanced(l0, cur.len());
                lemma_located_push(cur, m, l0);
            }
            let loc = location.next();
            fields.push(Field { location: loc, name: Name::Str("map"), ty: Type::vec2() });
            proof {
                cur = cur.push(m);
            }
        }
        assert(cur =~= ms);
        assert(fields@ =~= located(ms, l0));
        let s = Struct { name: "VertexInput", fields };
        s.write_to(o);
    }

    /// Writes the world position computed from the vertex position.
    pub fn calc_world(&self, o: &mut Out)
        ensures
            final(o)@ == old(o)@ + self.world_text(),
    {
        o.write_str(
            match self.pos {
                Dimension::D2 => "model * vec4(input.pos, 0., 1.)",
                Dimension::D3 => "model * vec4(input.pos, 1.)",
            },
        );
    }
}

/// The names of the variables the light spaces are sampled into.
pub open spec fn space_name(i: int) -> Seq<char> {
    if i == 0 {
        "space_a"@
    } else if i == 1 {
        "space_b"@
    } else if i == 2 {
        "space_c"@
    } else {
        "space_d"@
    }
}

fn space_name_str(i: usize) -> (s: &'static str)
    requires
        i < 4,
    ensures
        s@ == space_name(i as int),
{
    if i == 0 {
        "space_a"
    } else if i == 1 {
        "space_b"
    } else if i == 2 {
        "space_c"
    } else {
        "space_d"
    }
}

/// The bounding box test of a light source.
pub open spec fn source_box_text() -> Seq<char> {
    "if out.world.x > src.pos.x - src.rad && out.world.x < src.pos.x + src.rad \
     && out.world.y > src.pos.y - src.rad && out.world.y < src.pos.y + src.rad \
     && out.world.z > src.pos.z - src.rad && out.world.z < src.pos.z + src.rad \
     {\n            "@
}

/// How a source of the given kind changes the light.
pub open spec fn source_effect_text(kind: SourceKind, ambient: bool) -> Seq<char> {
    match kind {
        SourceKind::Glow => "sources += e * e * src.col"@,
        SourceKind::Gloom => if ambient {
            "sources -= e * e * src.col * ambient.rgb"@
        } else {
            "sources -= e * e * src.col"@
        },
    }
}

/// The loop that adds the light of the `n`-th source array.
pub open spec fn source_loop_text(n: nat, kind: SourceKind, ambient: bool) -> Seq<char> {
    "for (var i = 0u; i < "@ + Name::Num { str: "sources_len", n: n as u32 }.text()
        + ".n; i++) {\n        "@ + "let src = "@ + Name::Num { str: "sources_array", n: n as u32 }.text()
        + "[i];\n        "@ + source_box_text() + "let len = length(out.world - src.pos);\n            "@
        + "if len < src.rad {\n                "@ + "let e = 1. - (len / src.rad);\n                "@
        + source_effect_text(kind, ambient) + ";\n            "@ + "}\n        "@ + "}\n    "@
        + "}\n    "@
}

/// The loops of the first `k` source arrays.
pub open spec fn source_loops_text(arrays: Seq<SourceArray>, k: nat, ambient: bool) -> Seq<char>
    decreases k,
{
    if k == 0 {
        Seq::empty()
    } else {
        source_loops_text(arrays, (k - 1) as nat, ambient) + source_loop_text(
            (k - 1) as nat,
            arrays[k - 1].kind_of(),
            ambient,
        )
    }
}

/// The sampling of the first `k` light spaces.
pub open spec fn space_calcs_text(kinds: Seq<SpaceKind>, k: nat) -> Seq<char>
    decreases k,
{
    if k == 0 {
        Seq::empty()
    } else {
        space_calcs_text(kinds, (k - 1) as nat) + kinds[k - 1].calc_text(
            space_name(k - 1),
            (k - 1) as nat,
        )
    }
}

/// The assignment of the space varyings of the first `k` light spaces.
pub open spec fn space_outputs_text(k: nat) -> Seq<char>
    decreases k,
{
    if k == 0 {
        Seq::empty()
    } else {
        space_outputs_text((k - 1) as nat) + "    out.space_"@ + dec((k - 1) as nat) + " = (spaces["@
            + dec((k - 1) as nat) + "].model * world).xzy;\n"@
    }
}

/// The text when the condition holds, nothing otherwise.
pub open spec fn when(c: bool, t: Seq<char>) -> Seq<char> {
    if c {
        t
    } else {
        Seq::empty()
    }
}

/// The item when the condition holds, no item otherwise.
pub open spec fn item_when(c: bool, t: Seq<char>) -> Seq<Seq<char>> {
    if c {
        seq![t]
    } else {
        Seq::empty()
    }
}

/// The texture read and alpha test of a textured fragment.
pub open spec fn texture_discard_text() -> Seq<char> {
    "let tex = textureSample(tdiff, sdiff, out.map); \n    \
    if tex.w < 0.95 { \
        discard; \
    } \n    "@
}

/// The text of a static color.
pub open spec fn color_text(c: Color) -> Seq<char> {
    "vec3("@ + c.r@ + ", "@ + c.g@ + ", "@ + c.b@ + ")"@
}

/// Writes a static color.
fn write_color(c: &Color, o: &mut Out)
    ensures
        final(o)@ == old(o)@ + color_text(*c),
{
    o.write_str("vec3(").write_str(c.r.as_str()).write_str(", ").write_str(c.g.as_str()).write_str(
        ", ",
    ).write_str(c.b.as_str()).write_str(")");
}

/// The vertex output of the vertex stage and the fragment color computation.
pub struct VertexOutput {
    pub fragment: Fragment,
    pub static_color: Option<Color>,
    pub ambient: bool,
    pub source_arrays: SourceArrays,
    pub light_spaces: LightSpaces,
}

impl VertexOutput {
    pub open spec fn spec_has_sources(&self) -> bool {
        self.source_arrays.arrays().len() != 0
    }

    pub open spec fn has_light(&self) -> bool {
        self.ambient || self.spec_has_sources() || self.light_spaces.kinds().len() != 0
    }

    /// The located members of the vertex output: color, texture map, world position and
    /// one varying per light space.
    pub open spec fn members(&self) -> Seq<(Name, Type)> {
        (if self.fragment.vertex_color {
            seq![(Name::Str("col"), Type::Simple("vec3<f32>"))]
        } else {
            Seq::empty()
        }) + (if self.fragment.vertex_texture {
            seq![(Name::Str("map"), Type::Simple("vec2<f32>"))]
        } else {
            Seq::empty()
        }) + (if self.spec_has_sources() {
            seq![(Name::Str("world"), Type::Simple("vec3<f32>"))]
        } else {
            Seq::empty()
        }) + Seq::new(
            self.light_spaces.kinds().len(),
            |i: int| (Name::Num { str: "space", n: i as u32 }, Type::Simple("vec3<f32>")),
        )
    }

    /// All the fields of the vertex output: the builtin position, then the located members.
    pub open spec fn fields(&self, l: Location) -> Seq<Field> {
        seq![Field { location: Location::Position, name: Name::Str("pos"), ty: Type::Simple("vec4<f32>") }]
            + located(self.members(), l)
    }

    /// The vertex stage body.
    pub open spec fn vertex_text(&self, input: VertexInput, camera: View) -> Seq<char> {
        "let world = "@ + input.world_text() + ";\n"@ + "    out.pos = "@ + camera.view_text() + ";\n"@
            + when(self.fragment.vertex_color, "    out.col = input.col;\n"@) + when(
            self.fragment.vertex_texture,
            "    out.map = input.map;\n"@,
        ) + when(self.spec_has_sources(), "    out.world = world.xyz;\n"@) + space_outputs_text(
            self.light_spaces.kinds().len(),
        )
    }

    /// The sampling of the light spaces into `space`.
    pub open spec fn spaces_text(&self) -> Seq<char> {
        let kinds = self.light_spaces.kinds();
        when(
            kinds.len() != 0,
            "\n    "@ + "var space = vec3(0.);\n    "@ + space_calcs_text(kinds, kinds.len()) + "\n    "@,
        )
    }

    /// The summands of the light.
    pub open spec fn light_items(&self) -> Seq<Seq<char>> {
        item_when(self.ambient, "ambient.rgb"@) + item_when(self.spec_has_sources(), "sources"@)
            + item_when(self.light_spaces.kinds().len() != 0, "space"@)
    }

    /// The light computation.
    pub open spec fn light_text(&self) -> Seq<char> {
        when(
            self.has_light(),
            self.sources_text() + self.spaces_text() + "let light = "@ + joined(self.light_items(), " + "@)
                + ";\n    "@,
        )
    }

    /// The accumulation of the light sources, when there are any.
    pub open spec fn sources_text(&self) -> Seq<char> {
        let arrays = self.source_arrays.arrays();
        when(
            self.spec_has_sources(),
            "\n    "@ + "var sources = vec3(0.); \n    "@ + source_loops_text(
                arrays,
                arrays.len(),
                self.ambient,
            ),
        )
    }

    /// The factors of the fragment color.
    pub open spec fn color_items(&self) -> Seq<Seq<char>> {
        item_when(self.has_light(), "light"@) + match self.static_color {
            Some(c) => seq![color_text(c)],
            None => Seq::empty(),
        } + item_when(self.fragment.vertex_color, "out.col"@) + item_when(
            self.fragment.vertex_texture,
            "tex.rgb"@,
        )
    }

    /// The fragment stage body.
    pub open spec fn fragment_text(&self) -> Seq<char> {
        when(self.fragment.vertex_texture, texture_discard_text()) + self.light_text() + "col = "@
            + joined_or(self.color_items(), " * "@, "vec3(0.)"@) + ";\n"@
    }

    /// Writes the `VertexOutput` struct; its located fields start at the given location.
    pub fn define_type(&self, location: &mut Location, o: &mut Out)
        requires
            old(location).can_advance_by(self.members().len()),
        ensures
            *final(location) == old(location).advanced_by(self.members().len()),
            final(o)@ == old(o)@ + struct_text("VertexOutput"@, self.fields(*old(location))),
    {
        let ghost l0 = *old(location);
        let ghost ms = self.members();
        let mut fields: Vec<Field> = Vec::new();
        fields.push(Field { location: Location::Position, name: Name::Str("pos"), ty: Type::vec4() });
        let ghost mut cur: Seq<(Name, Type)> = Seq::empty();
        proof {
            lemma_advanced_zero(l0);
        }
        assert(fields@ =~= seq![Field { location: Location::Position, name: Name::Str("pos"), ty: Type::Simple("vec4<f32>") }] + located(cur, l0));
        if self.fragment.vertex_color {
            let ghost m = (Name::Str("col"), Type::Simple("vec3<f32>"));
            proof {
                lemma_advanced(l0, cur.len());
                lemma_located_push(cur, m, l0);
            }
            let loc = location.next();
            fields.push(Field { location: loc, name: Name::Str("col"), ty: Type::vec3() });
            proof {
                cur = cur.push(m);
            }
        }
        assert(fields@ =~= seq![Field { location: Location::Position, name: Name::Str("pos"), ty: Type::Simple("vec4<f32>") }] + located(cur, l0));
        if self.fragment.vertex_texture {
            let ghost m = (Name::Str("map"), Type::Simple("vec2<f32>"));
            proof {
                lemma_advanced(l0, cur.len());
                lemma_located_push(cur, m, l0);
            }
            let loc = location.next();
            fields.push(Field { location: loc, name: Name::Str("map"), ty: Type::vec2() });
            proof {
                cur = cur.push(m);
            }
        }
        assert(fields@ =~= seq![Field { location: Location::Position, name: Name::Str("pos"), ty: Type::Simple("vec4<f32>") }] + located(cur, l0));
        if self.has_sources() {
            let ghost m = (Name::Str("world"), Type::Simple("vec3<f32>"));
            proof {
                lemma_advanced(l0, cur.len());
                lemma_located_push(cur, m, l0);
            }
            let loc = location.next();
            fields.push(Field { location: loc, name: Name::Str("world"), ty: Type::vec3() });
            proof {
                cur = cur.push(m);
            }
        }
        assert(fields@ =~= seq![Field { location: Location::Position, name: Name::Str("pos"), ty: Type::Simple("vec4<f32>") }] + located(cur, l0));
        let spaces = self.light_spaces.enumerate();
        let ghost before = cur;
        let mut i: usize = 0;
        while i < spaces.len()
            invariant
                spaces@.len() == self.light_spaces.kinds().len(),
                spaces@.len() <= 4,
                forall|j: int| 0 <= j < spaces@.len() ==> #[trigger] spaces@[j] == (j as u32, self.light_spaces.kinds()[j]),
                ms == self.members(),
                l0.can_advance_by(ms.len()),
                i <= spaces@.len(),
                before.len() + spaces@.len() == ms.len(),
                cur == before + Seq::new(i as nat, |j: int| (Name::Num { str: "space", n: j as u32 }, Type::Simple("vec3<f32>"))),
                ms == before + Seq::new(spaces@.len() as nat, |j: int| (Name::Num { str: "space", n: j as u32 }, Type::Simple("vec3<f32>"))),
                *location == l0.advanced_by(cur.len()),
                fields@ =~= seq![Field { location: Location::Position, name: Name::Str("pos"), ty: Type::Simple("vec4<f32>") }] + located(cur, l0),
            decreases spaces@.len() - i,
        {
            let (n, _) = spaces[i];
            let ghost m = (Name::Num { str: "space", n: i as u32 }, Type::Simple("vec3<f32>"));
            proof {
                lemma_advanced(l0, cur.len());
                lemma_located_push(cur, m, l0);
            }
            let loc = location.next();
            fields.push(Field { location: loc, name: Name::Num { str: "space", n }, ty: Type::vec3() });
            proof {
                cur = cur.push(m);
                assert(cur =~= before + Seq::new((i + 1) as nat, |j: int| (Name::Num { str: "space", n: j as u32 }, Type::Simple("vec3<f32>"))));
            }
            i = i + 1;
        }
        assert(cur =~= ms);
        let s = Struct { name: "VertexOutput", fields };
        s.write_to(o);
    }

    /// Writes the vertex stage body.
    #[verifier::rlimit(60)]
    pub fn calc_vertex(&self, input: &VertexInput, camera: View, o: &mut Out)
        ensures
            final(o)@ == old(o)@ + self.vertex_text(*input, camera),
    {
        let ghost o0 = old(o)@;
        o.write_str("let world = ");
        input.calc_world(o);
        o.write_str(";\n");
        o.write_str("    out.pos = ");
        camera.calc_view(o);
        o.write_str(";\n");
        if self.fragment.vertex_color {
            o.write_str("    out.col = input.col;\n");
        }
        if self.fragment.vertex_texture {
            o.write_str("    out.map = input.map;\n");
        }
        if self.has_sources() {
            o.write_str("    out.world = world.xyz;\n");
        }
        let ghost mid = o@;
        assert(mid =~= o0 + "let world = "@ + input.world_text() + ";\n"@ + "    out.pos = "@ + camera.view_text() + ";\n"@
            + when(self.fragment.vertex_color, "    out.col = input.col;\n"@) + when(
            self.fragment.vertex_texture,
            "    out.map = input.map;\n"@,
        ) + when(self.spec_has_sources(), "    out.world = world.xyz;\n"@));
        let spaces = self.light_spaces.enumerate();
        let mut i: usize = 0;
        while i < spaces.len()
            invariant
                spaces@.len() <= 4,
                i <= spaces@.len(),
                forall|j: int| 0 <= j < spaces@.len() ==> #[trigger] spaces@[j].0 == j as u32,
                o@ == mid + space_outputs_text(i as nat),
            decreases spaces@.len() - i,
        {
            let (n, _) = spaces[i];
            o.write_str("    out.space_").write(n).write_str(" = (spaces[").write(n).write_str(
                "].model * world).xzy;\n",
            );
            i = i + 1;
        }
    }

    /// Writes the loop that adds the light of the `n`-th source array.
    fn write_source_loop(n: u32, kind: SourceKind, ambient: bool, o: &mut Out)
        ensures
            final(o)@ == old(o)@ + source_loop_text(n as nat, kind, ambient),
    {
        let len_name = Name::Num { str: "sources_len", n };
        let array_name = Name::Num { str: "sources_array", n };
        o.write_str("for (var i = 0u; i < ");
        len_name.write_to(o);
        o.write_str(".n; i++) {\n        ").write_str("let src = ");
        array_name.write_to(o);
        o.write_str("[i];\n        ").write_str(
            "if out.world.x > src.pos.x - src.rad && out.world.x < src.pos.x + src.rad \
             && out.world.y > src.pos.y - src.rad && out.world.y < src.pos.y + src.rad \
             && out.world.z > src.pos.z - src.rad && out.world.z < src.pos.z + src.rad \
             {\n            ",
        ).write_str("let len = length(out.world - src.pos);\n            ").write_str(
            "if len < src.rad {\n                ",
        ).write_str("let e = 1. - (len / src.rad);\n                ");
        match kind {
            SourceKind::Glow => {
                o.write_str("sources += e * e * src.col");
            },
            SourceKind::Gloom => {
                if ambient {
                    o.write_str("sources -= e * e * src.col * ambient.rgb");
                } else {
                    o.write_str("sources -= e * e * src.col");
                }
            },
        }
        o.write_str(";\n            ").write_str("}\n        ").write_str("}\n    ").write_str(
            "}\n    ",
        );
    }

    /// Writes the loops over the light source arrays, when there are any.
    fn write_sources(&self, o: &mut Out)
        ensures
            final(o)@ == old(o)@ + self.sources_text(),
    {
        if self.has_sources() {
            o.write_str("\n    ").write_str("var sources = vec3(0.); \n    ");
            let ghost start = o@;
            let arrays = self.source_arrays.enumerate();
            let mut i: usize = 0;
            while i < arrays.len()
                invariant
                    arrays@.len() == self.source_arrays.arrays().len(),
                    arrays@.len() <= 4,
                    forall|j: int| 0 <= j < arrays@.len() ==> #[trigger] arrays@[j] == (j as u32, self.source_arrays.arrays()[j]),
                    i <= arrays@.len(),
                    o@ == start + source_loops_text(self.source_arrays.arrays(), i as nat, self.ambient),
                decreases arrays@.len() - i,
            {
                let (n, a) = arrays[i];
                Self::write_source_loop(n, a.kind(), self.ambient, o);
                i = i + 1;
            }
        } else {
            assert(o@ =~= old(o)@ + self.sources_text());
        }
    }

    /// Writes the sum of the light terms, from `let light = ` to the end of the statement.
    fn write_light_sum(&self, has_spaces: bool, o: &mut Out)
        requires
            has_spaces == (self.light_spaces.kinds().len() != 0),
        ensures
            final(o)@ == old(o)@ + "let light = "@ + joined(self.light_items(), " + "@) + ";\n    "@,
    {
        let mut light = o.write_str("let light = ").separated(" + ");
        let ghost base = o@;
        let ghost mut items: Seq<Seq<char>> = Seq::empty();
        if self.ambient {
            proof {
                lemma_joined_push(items, " + "@, "ambient.rgb"@);
            }
            light.out(o).write_str("ambient.rgb");
            proof {
                items = items.push("ambient.rgb"@);
            }
        }
        assert(o@ == base + joined(items, " + "@) && light.added() == (items.len() > 0) && light.sep_text() == " + "@);
        if self.has_sources() {
            proof {
                lemma_joined_push(items, " + "@, "sources"@);
            }
            light.out(o).write_str("sources");
            proof {
                items = items.push("sources"@);
            }
        }
        assert(o@ == base + joined(items, " + "@) && light.added() == (items.len() > 0) && light.sep_text() == " + "@);
        if has_spaces {
            proof {
                lemma_joined_push(items, " + "@, "space"@);
            }
            light.out(o).write_str("space");
            proof {
                items = items.push("space"@);
            }
        }
        assert(items =~= self.light_items());
        o.write_str(";\n    ");
    }

    /// Writes the light computation into `light` and tells whether there is light.
    fn calc_light(&self, o: &mut Out) -> (has_light: bool)
        ensures
            has_light == self.has_light(),
            final(o)@ == old(o)@ + self.light_text(),
    {
        if !self.ambient && !self.has_sources() && self.light_spaces.is_empty() {
            assert(o@ =~= old(o)@ + self.light_text());
            return false;
        }
        let ghost o0 = o@;
        self.write_sources(o);
        let ghost o1 = o@;
        let has_spaces = self.calc_spaces(o);
        let ghost o2 = o@;
        self.write_light_sum(has_spaces, o);
        assert(o@ =~= o0 + self.light_text());
        true
    }

    /// Whether there are light sources.
    pub fn has_sources(&self) -> (b: bool)
        ensures
            b == self.spec_has_sources(),
    {
        !self.source_arrays.is_empty()
    }

    /// Writes the sampling of the light spaces and tells whether there are spaces.
    fn calc_spaces(&self, o: &mut Out) -> (has_spaces: bool)
        ensures
            has_spaces == (self.light_spaces.kinds().len() != 0),
            final(o)@ == old(o)@ + self.spaces_text(),
    {
        if self.light_spaces.is_empty() {
            return false;
        }
        o.write_str("\n    ").write_str("var space = vec3(0.);\n    ");
        let ghost start = o@;
        let spaces = self.light_spaces.enumerate();
        let mut i: usize = 0;
        while i < spaces.len()
            invariant
                spaces@.len() == self.light_spaces.kinds().len(),
                spaces@.len() <= 4,
                forall|j: int| 0 <= j < spaces@.len() ==> #[trigger] spaces@[j] == (j as u32, self.light_spaces.kinds()[j]),
                i <= spaces@.len(),
                o@ == start + space_calcs_text(self.light_spaces.kinds(), i as nat),
            decreases spaces@.len() - i,
        {
            let (n, kind) = spaces[i];
            kind.calc(space_name_str(i), n, o);
            i = i + 1;
        }
        o.write_str("\n    ");
        true
    }

    /// Writes the fragment color product, ended by `;`.
    #[verifier::rlimit(60)]
    fn write_color_product(&self, has_light: bool, o: &mut Out)
        requires
            has_light == self.has_light(),
        ensures
            final(o)@ == old(o)@ + ("col = "@ + joined_or(self.color_items(), " * "@, "vec3(0.)"@) + ";\n"@),
    {
        let ghost o0 = old(o)@;
        let mut col = o.write_str("col = ").separated(" * ");
        let ghost base = o@;
        let ghost mut items: Seq<Seq<char>> = Seq::empty();
        if has_light {
            proof {
                lemma_joined_push(items, " * "@, "light"@);
            }
            col.out(o).write_str("light");
            proof {
                items = items.push("light"@);
            }
        }
        assert(o@ == base + joined(items, " * "@) && col.added() == (items.len() > 0) && col.sep_text() == " * "@);
        match &self.static_color {
            Some(c) => {
                proof {
                    lemma_joined_push(items, " * "@, color_text(*c));
                }
                write_color(c, col.out(o));
                proof {
                    items = items.push(color_text(*c));
                }
            },
            None => {},
        }
        assert(o@ == base + joined(items, " * "@) && col.added() == (items.len() > 0) && col.sep_text() == " * "@);
        if self.fragment.vertex_color {
            proof {
                lemma_joined_push(items, " * "@, "out.col"@);
            }
            col.out(o).write_str("out.col");
            proof {
                items = items.push("out.col"@);
            }
        }
        assert(o@ == base + joined(items, " * "@) && col.added() == (items.len() > 0) && col.sep_text() == " * "@);
        if self.fragment.vertex_texture {
            proof {
                lemma_joined_push(items, " * "@, "tex.rgb"@);
            }
            col.out(o).write_str("tex.rgb");
            proof {
                items = items.push("tex.rgb"@);
            }
        }
        assert(items =~= self.color_items());
        col.write_default(o, "vec3(0.)");
        assert(o@ =~= base + joined_or(self.color_items(), " * "@, "vec3(0.)"@));
        o.write_str(";\n");
    }

    /// Writes the fragment stage body: texture read, light and the color product.
    pub fn calc_fragment(&self, o: &mut Out)
        ensures
            final(o)@ == old(o)@ + self.fragment_text(),
    {
        let ghost o0 = old(o)@;
        if self.fragment.vertex_texture {
            o.write_str(
                "let tex = textureSample(tdiff, sdiff, out.map); \n    \
                if tex.w < 0.95 { \
                    discard; \
                } \n    ",
            );
        }
        let ghost p1 = when(self.fragment.vertex_texture, texture_discard_text());
        assert(o@ =~= o0 + p1);
        let has_light = self.calc_light(o);
        let ghost p2 = p1 + self.light_text();
        assert(o@ =~= o0 + p2);
        self.write_color_product(has_light, o);
    }
}

} // verus!
