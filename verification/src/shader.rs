//! Shader generation: the WGSL sections of a shader and its bind group layout.

use vstd::prelude::*;

use crate::ambient::Ambient;
use crate::nodes::{struct_text, Binding, Location};
use crate::out::Out;
use crate::parts::{
    instance_members, located, Color, Dimension, Fragment, InstanceInput, VertexInput,
    VertexOutput,
};
use crate::sources::{source_bindings, sources_declare_text, SourceArrays, SourceBindings};
use crate::spaces::{spaces_declare_text, LightSpaces, SpaceBindings};
use crate::textures::{textures_declare_text, TextureBindings, TexturesNumber};
use crate::view::View;
use vstd::view::View as _;

verus! {

/// The vertex format of a shader.
#[derive(Clone, Copy, PartialEq, Eq, Structural)]
pub struct Vertex {
    pub dimension: Dimension,
    pub fragment: Fragment,
}

/// The description of a shader to generate.
pub struct Scheme {
    pub vert: Vertex,
    pub view: View,
    pub ambient: bool,
    pub static_color: Option<Color>,
    pub textures: TexturesNumber,
    pub source_arrays: SourceArrays,
    pub light_spaces: LightSpaces,
}

/// The description of a post-processing shader.
pub struct PostScheme {
    pub post_data: u32,
    pub map: TextureBindings,
}

/// A bind group: its number and the bindings it holds.
pub struct Group<T> {
    pub num: u32,
    pub bindings: T,
}

/// The bindings of the globals group.
#[derive(Clone, Copy, PartialEq, Eq, Structural)]
pub struct Globals {
    pub post_data: Option<u32>,
    pub camera: Option<u32>,
    pub ambient: Option<u32>,
}

impl Globals {
    pub open spec fn spec_is_empty(self) -> bool {
        self.post_data is None && self.camera is None && self.ambient is None
    }

    /// Whether the group holds no bindings.
    pub fn is_empty(&self) -> (b: bool)
        ensures
            b == self.spec_is_empty(),
    {
        self.post_data.is_none() && self.camera.is_none() && self.ambient.is_none()
    }
}

/// The bindings of the textures group.
#[derive(Clone)]
pub struct Textures {
    pub map: TextureBindings,
}

impl Textures {
    /// Whether the group holds no texture maps.
    pub fn is_empty(&self) -> (b: bool)
        ensures
            b == (self.map.tmaps@.len() == 0),
    {
        self.map.tmaps.len() == 0
    }
}

/// The bindings of the lights group.
#[derive(Clone)]
pub struct Lights {
    pub source_arrays: Vec<SourceBindings>,
}

impl Lights {
    /// Whether the group holds no source arrays.
    pub fn is_empty(&self) -> (b: bool)
        ensures
            b == (self.source_arrays@.len() == 0),
    {
        self.source_arrays.len() == 0
    }
}

/// The bindings of the light spaces group.
#[derive(Clone)]
pub struct Spaces {
    pub light_spaces: SpaceBindings,
}

/// The bind groups of a shader.
pub struct Layout {
    pub globals: Group<Globals>,
    pub textures: Group<Textures>,
    pub lights: Group<Lights>,
    pub spaces: Group<Spaces>,
}

/// Whether the globals group of a shader with this view and ambient holds a binding.
pub open spec fn globals_used(view: View, ambient: bool) -> bool {
    view == View::Camera || ambient
}

/// The group numbers of a shader: each group takes the next number when the groups
/// before it hold bindings, so the groups that hold bindings are numbered `0, 1, 2, ..`.
pub open spec fn texture_group(view: View, ambient: bool) -> u32 {
    if globals_used(view, ambient) {
        1
    } else {
        0
    }
}

pub open spec fn lights_group(view: View, ambient: bool, n_textures: nat) -> u32 {
    (texture_group(view, ambient) + if n_textures != 0 {
        1u32
    } else {
        0u32
    }) as u32
}

pub open spec fn spaces_group(view: View, ambient: bool, n_textures: nat, n_sources: nat) -> u32 {
    (lights_group(view, ambient, n_textures) + if n_sources != 0 {
        1u32
    } else {
        0u32
    }) as u32
}

/// The declarations of the globals group.
pub open spec fn globals_declare_text(view: View, ambient: bool) -> Seq<char> {
    (if view == View::Camera {
        View::camera_var(Binding { group: 0, binding: 0 }).text()
    } else {
        Seq::empty()
    }) + if ambient {
        Ambient::var(
            Binding {
                group: 0,
                binding: if view == View::Camera {
                    1
                } else {
                    0
                },
            },
        ).text()
    } else {
        Seq::empty()
    }
}

/// The declarations of all the groups of a shader.
pub open spec fn groups_text(
    view: View,
    ambient: bool,
    textures: nat,
    arrays: Seq<crate::sources::SourceArray>,
    spaces: nat,
) -> Seq<char> {
    globals_declare_text(view, ambient) + textures_declare_text(
        textures,
        Binding { group: texture_group(view, ambient), binding: 0 },
    ) + sources_declare_text(arrays, lights_group(view, ambient, textures), 0)
        + spaces_declare_text(
        spaces,
        Binding { group: spaces_group(view, ambient, textures, arrays.len()), binding: 0 },
    )
}

impl Layout {
    /// The layout of a shader: the group numbers and each binding of each group.
    pub open spec fn describes(
        &self,
        view: View,
        ambient: bool,
        textures: nat,
        arrays: Seq<crate::sources::SourceArray>,
        spaces: nat,
    ) -> bool {
        &&& self.globals.num == 0
        &&& self.globals.bindings.post_data is None
        &&& self.globals.bindings.camera == if view == View::Camera {
            Some(0u32)
        } else {
            None
        }
        &&& self.globals.bindings.ambient == if ambient {
            Some(
                if view == View::Camera {
                    1u32
                } else {
                    0u32
                },
            )
        } else {
            None
        }
        &&& self.textures.num == texture_group(view, ambient)
        &&& self.textures.bindings.map.tmaps@ == Seq::new(textures, |i: int| i as u32)
        &&& self.textures.bindings.map.smap == textures
        &&& self.lights.num == lights_group(view, ambient, textures)
        &&& self.lights.bindings.source_arrays@ == Seq::new(
            arrays.len(),
            |i: int| source_bindings(arrays, 0, i),
        )
        &&& self.spaces.num == spaces_group(view, ambient, textures, arrays.len())
        &&& self.spaces.bindings.light_spaces.tspaces@ == Seq::new(
            spaces,
            |i: int| (1 + i) as u32,
        )
        &&& self.spaces.bindings.light_spaces.spaces == 0
        &&& self.spaces.bindings.light_spaces.sspace == if spaces == 0 {
            0
        } else {
            1 + spaces
        }
    }

    /// Declares the camera and the ambient light in group 0.
    fn declare_globals(view: View, ambient: bool, o: &mut Out) -> (r: Group<Globals>)
        ensures
            r.num == 0,
            r.bindings.post_data is None,
            r.bindings.camera == if view == View::Camera {
                Some(0u32)
            } else {
                None
            },
            r.bindings.ambient == if ambient {
                Some(
                    if view == View::Camera {
                        1u32
                    } else {
                        0u32
                    },
                )
            } else {
                None
            },
            r.bindings.spec_is_empty() == !globals_used(view, ambient),
            final(o)@ == old(o)@ + globals_declare_text(view, ambient),
    {
        let ghost o0 = old(o)@;
        let mut binding = Binding::with_group(0);
        let camera = view.declare_group(&mut binding, o);
        let amb = if ambient {
            Some(Ambient::declare_group(&mut binding, o))
        } else {
            None
        };
        assert(o@ =~= o0 + globals_declare_text(view, ambient));
        Group { num: 0, bindings: Globals { post_data: None, camera, ambient: amb } }
    }

    fn declare_textures(num: u32, textures: &TexturesNumber, o: &mut Out) -> (r: Group<Textures>)
        ensures
            r.num == num,
            r.bindings.map.tmaps@ == Seq::new(textures.count(), |i: int| i as u32),
            r.bindings.map.smap == textures.count(),
            final(o)@ == old(o)@ + textures_declare_text(textures.count(), Binding { group: num, binding: 0 }),
    {
        // Calling `len` brings the bound that its contract states into the proof.
        let _ = textures.len();
        let mut binding = Binding::with_group(num);
        let map = textures.declare_group(&mut binding, o);
        assert(map.tmaps@ =~= Seq::new(textures.count(), |i: int| i as u32));
        Group { num, bindings: Textures { map } }
    }

    fn declare_lights(num: u32, source_arrays: &SourceArrays, o: &mut Out) -> (r: Group<Lights>)
        ensures
            r.num == num,
            r.bindings.source_arrays@ == Seq::new(
                source_arrays.arrays().len(),
                |i: int| source_bindings(source_arrays.arrays(), 0, i),
            ),
            final(o)@ == old(o)@ + sources_declare_text(source_arrays.arrays(), num, 0),
    {
        // Calling `len` brings the bound that its contract states into the proof.
        let _ = source_arrays.len();
        let mut binding = Binding::with_group(num);
        let arrays_bindings = source_arrays.declare_group(&mut binding, o);
        assert(arrays_bindings@ =~= Seq::new(
            source_arrays.arrays().len(),
            |i: int| source_bindings(source_arrays.arrays(), 0, i),
        ));
        Group { num, bindings: Lights { source_arrays: arrays_bindings } }
    }

    fn declare_spaces(num: u32, light_spaces: &LightSpaces, o: &mut Out) -> (r: Group<Spaces>)
        ensures
            r.num == num,
            r.bindings.light_spaces.tspaces@ == Seq::new(
                light_spaces.kinds().len(),
                |i: int| (1 + i) as u32,
            ),
            r.bindings.light_spaces.spaces == 0,
            r.bindings.light_spaces.sspace == if light_spaces.kinds().len() == 0 {
                0
            } else {
                1 + light_spaces.kinds().len()
            },
            final(o)@ == old(o)@ + spaces_declare_text(light_spaces.kinds().len(), Binding { group: num, binding: 0 }),
    {
        // Calling `len` brings the bound that its contract states into the proof.
        let _ = light_spaces.len();
        let mut binding = Binding::with_group(num);
        let bindings = light_spaces.declare_group(&mut binding, o);
        assert(bindings.tspaces@ =~= Seq::new(light_spaces.kinds().len(), |i: int| (1 + i) as u32));
        Group { num, bindings: Spaces { light_spaces: bindings } }
    }

    /// Declares the variables of all the groups and numbers the groups.
    #[verifier::rlimit(40)]
    pub fn new(
        view: View,
        ambient: bool,
        textures: &TexturesNumber,
        source_arrays: &SourceArrays,
        light_spaces: &LightSpaces,
        o: &mut Out,
    ) -> (r: Layout)
        ensures
            r.describes(
                view,
                ambient,
                textures.count(),
                source_arrays.arrays(),
                light_spaces.kinds().len(),
            ),
            final(o)@ == old(o)@ + groups_text(
                view,
                ambient,
                textures.count(),
                source_arrays.arrays(),
                light_spaces.kinds().len(),
            ),
    {
        let ghost o0 = old(o)@;
        // Calling `len` brings the bound that its contract states into the proof.
        let _ = textures.len();
        let _ = source_arrays.len();
        let _ = light_spaces.len();
        let mut num: u32 = 0;
        let globals = Self::declare_globals(view, ambient, o);
        let ghost p1 = globals_declare_text(view, ambient);
        if !globals.bindings.is_empty() {
            num = num + 1;
        }
        assert(num == texture_group(view, ambient));
        let textures_group = Self::declare_textures(num, textures, o);
        let ghost t2 = textures_declare_text(
            textures.count(),
            Binding { group: texture_group(view, ambient), binding: 0 },
        );
        let ghost p2 = p1 + t2;
        proof {
            vstd::seq_lib::lemma_concat_associative(o0, p1, t2);
        }
        if !textures_group.bindings.is_empty() {
            num = num + 1;
        }
        assert(num == lights_group(view, ambient, textures.count()));
        let lights = Self::declare_lights(num, source_arrays, o);
        let ghost t3 = sources_declare_text(
            source_arrays.arrays(),
            lights_group(view, ambient, textures.count()),
            0,
        );
        let ghost p3 = p2 + t3;
        proof {
            vstd::seq_lib::lemma_concat_associative(o0, p2, t3);
        }
        if !lights.bindings.is_empty() {
            num = num + 1;
        }
        assert(num == spaces_group(view, ambient, textures.count(), source_arrays.arrays().len()));
        let spaces = Self::declare_spaces(num, light_spaces, o);
        let ghost t4 = spaces_declare_text(
            light_spaces.kinds().len(),
            Binding { group: spaces_group(view, ambient, textures.count(), source_arrays.arrays().len()), binding: 0 },
        );
        proof {
            vstd::seq_lib::lemma_concat_associative(o0, p3, t4);
        }
        Layout { globals, textures: textures_group, lights, spaces }
    }

    /// The layout of the post-processing shader: the data in group 0 and
    /// the frame map in group 1.
    pub fn postproc(post_data: u32, map: TextureBindings) -> (r: Layout)
        ensures
            r.globals.num == 0,
            r.globals.bindings == (Globals { post_data: Some(post_data), camera: None, ambient: None }),
            r.textures.num == 1,
            r.textures.bindings.map.tmaps@ == map.tmaps@,
            r.textures.bindings.map.smap == map.smap,
            r.lights.num == 0,
            r.lights.bindings.source_arrays@.len() == 0,
            r.spaces.num == 0,
            r.spaces.bindings.light_spaces.tspaces@.len() == 0,
            r.spaces.bindings.light_spaces.spaces == 0,
            r.spaces.bindings.light_spaces.sspace == 0,
    {
        Layout {
            globals: Group {
                num: 0,
                bindings: Globals { post_data: Some(post_data), camera: None, ambient: None },
            },
            textures: Group { num: 1, bindings: Textures { map } },
            lights: Group { num: 0, bindings: Lights { source_arrays: Vec::new() } },
            spaces: Group { num: 0, bindings: Spaces { light_spaces: SpaceBindings::empty() } },
        }
    }
}

/// The generated WGSL sections of a shader, by the names they fill in the shader template.
pub struct Sections {
    pub types: String,
    pub groups: String,
    pub vertex_out: String,
    pub fragment_col: String,
}

/// The vertex input of a scheme.
pub open spec fn scheme_input(s: Scheme) -> VertexInput {
    VertexInput { fragment: s.vert.fragment, pos: s.vert.dimension }
}

/// The vertex output of a scheme.
pub open spec fn scheme_output(s: Scheme) -> VertexOutput {
    VertexOutput {
        fragment: s.vert.fragment,
        static_color: s.static_color,
        ambient: s.ambient,
        source_arrays: s.source_arrays,
        light_spaces: s.light_spaces,
    }
}

/// The type definitions of a shader: the instance and vertex inputs (their locations
/// continue one another), the vertex output (its locations start again at zero),
/// then the camera, source and space types.
pub open spec fn types_text(s: Scheme) -> Seq<char> {
    struct_text("InstanceInput"@, located(instance_members(), Location::Num(0))) + struct_text(
        "VertexInput"@,
        located(scheme_input(s).members(), Location::Num(4)),
    ) + struct_text("VertexOutput"@, scheme_output(s).fields(Location::Num(0)))
        + s.view.type_text() + s.source_arrays.type_text() + s.light_spaces.type_text()
}

/// A shader: its layout and its WGSL source.
pub struct Shader {
    pub layout: Layout,
    pub source: String,
}

impl Shader {
    /// The name of the vertex stage entry point.
    pub fn vertex_entry_point() -> (s: &'static str)
        ensures
            s@ == "vsmain"@,
    {
        "vsmain"
    }

    /// The name of the fragment stage entry point.
    pub fn fragment_entry_point() -> (s: &'static str)
        ensures
            s@ == "fsmain"@,
    {
        "fsmain"
    }

    /// Generates the layout and the WGSL sections of the shader that the scheme describes.
    pub fn generate(scheme: Scheme) -> (r: (Layout, Sections))
        ensures
            r.0.describes(
                scheme.view,
                scheme.ambient,
                scheme.textures.count(),
                scheme.source_arrays.arrays(),
                scheme.light_spaces.kinds().len(),
            ),
            r.1.types@ == types_text(scheme),
            r.1.groups@ == groups_text(
                scheme.view,
                scheme.ambient,
                scheme.textures.count(),
                scheme.source_arrays.arrays(),
                scheme.light_spaces.kinds().len(),
            ),
            r.1.vertex_out@ == scheme_output(scheme).vertex_text(
                scheme_input(scheme),
                scheme.view,
            ),
            r.1.fragment_col@ == scheme_output(scheme).fragment_text(),
    {
        let ghost s = scheme;
        let Scheme {
            vert,
            view,
            ambient,
            static_color,
            textures,
            source_arrays,
            light_spaces,
        } = scheme;
        let vert_input = VertexInput { fragment: vert.fragment, pos: vert.dimension };
        let vert_output = VertexOutput {
            fragment: vert.fragment,
            static_color,
            ambient,
            source_arrays,
            light_spaces,
        };
        assert(vert_output == scheme_output(s));
        // Calling `len` brings the bound that its contract states into the proof.
        let _ = vert_output.source_arrays.len();
        let _ = vert_output.light_spaces.len();
        let mut types = Out::new();
        let mut location = Location::new();
        InstanceInput::define_type(&mut location, &mut types);
        vert_input.define_type(&mut location, &mut types);
        let mut location = Location::new();
        vert_output.define_type(&mut location, &mut types);
        view.define_type(&mut types);
        vert_output.source_arrays.define_type(&mut types);
        vert_output.light_spaces.define_type(&mut types);
        assert(types@ =~= types_text(s));
        let mut groups = Out::new();
        let layout = Layout::new(
            view,
            ambient,
            &textures,
            &vert_output.source_arrays,
            &vert_output.light_spaces,
            &mut groups,
        );
        assert(groups@ =~= groups_text(
            s.view,
            s.ambient,
            s.textures.count(),
            s.source_arrays.arrays(),
            s.light_spaces.kinds().len(),
        ));
        let mut vertex_out = Out::new();
        vert_output.calc_vertex(&vert_input, view, &mut vertex_out);
        assert(vertex_out@ =~= scheme_output(s).vertex_text(scheme_input(s), s.view));
        let mut fragment_col = Out::new();
        vert_output.calc_fragment(&mut fragment_col);
        assert(fragment_col@ =~= scheme_output(s).fragment_text());
        (
            layout,
            Sections {
                types: types.into_string(),
                groups: groups.into_string(),
                vertex_out: vertex_out.into_string(),
                fragment_col: fragment_col.into_string(),
            },
        )
    }

    /// A post-processing shader with the given source.
    pub fn postproc(scheme: PostScheme, source: String) -> (r: Shader)
        ensures
            r.source@ == source@,
            r.layout.globals.num == 0,
            r.layout.globals.bindings == (Globals {
                post_data: Some(scheme.post_data),
                camera: None,
                ambient: None,
            }),
            r.layout.textures.num == 1,
            r.layout.textures.bindings.map.tmaps@ == scheme.map.tmaps@,
            r.layout.textures.bindings.map.smap == scheme.map.smap,
            r.layout.lights.bindings.source_arrays@.len() == 0,
            r.layout.spaces.bindings.light_spaces.tspaces@.len() == 0,
    {
        let PostScheme { post_data, map } = scheme;
        let layout = Layout::postproc(post_data, map);
        Shader { layout, source }
    }
}

} // verus!
