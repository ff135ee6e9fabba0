//! Render pipeline parameters, vertex buffer slots, vertex attributes and the entries of
//! the bind group layouts of a shader.

use vstd::prelude::*;

use crate::layer::{BlendState, Topology};
use crate::shader::{globals_used, lights_group, spaces_group, texture_group, Globals, Layout};
use crate::sources::{source_bindings, SourceArray};

use crate::sources::SourceBindings;
use crate::spaces::SpaceBindings;
use crate::textures::TextureBindings;

verus! {

/// Layer's blending.
#[derive(Clone, Copy, Debug, PartialEq, Eq, Structural)]
pub enum Blend {
    Replace,
    AlphaBlending,
}

/// Type of drawing mode for polygons.
#[derive(Clone, Copy, Debug, PartialEq, Eq, Structural)]
pub enum DrawMode {
    Fill,
    Line,
    Point,
}

/// Depth comparison function.
#[derive(Clone, Copy, Debug, PartialEq, Eq, Structural)]
pub enum Compare {
    /// Function never passes.
    Never,
    /// Function passes if new value less than existing value.
    Less,
    /// Function passes if new value is greater than existing value.
    Greater,
    /// Function passes if new value is less than or equal to existing value.
    LessEqual,
    /// Function always passes.
    Always,
}

/// The parameters of a render pipeline.
#[derive(Clone, Copy, Debug, PartialEq, Eq, Structural)]
pub struct Parameters {
    pub blend: BlendState,
    pub topology: Topology,
    pub cull_faces: bool,
    pub mode: DrawMode,
    pub depth_stencil: Option<Compare>,
}

impl Parameters {
    pub open spec fn spec_default() -> Self {
        Parameters {
            blend: BlendState::Replace,
            topology: Topology::TriangleList,
            cull_faces: true,
            mode: DrawMode::Fill,
            depth_stencil: Some(Compare::Less),
        }
    }
}

impl Default for Parameters {
    fn default() -> (p: Self)
        ensures
            p == Parameters::spec_default(),
    {
        Parameters {
            blend: BlendState::Replace,
            topology: Topology::TriangleList,
            cull_faces: true,
            mode: DrawMode::Fill,
            depth_stencil: Some(Compare::Less),
        }
    }
}

/// Builds the parameters of a new layer.
#[derive(Clone, Copy, Debug, PartialEq, Eq, Structural)]
pub struct LayerBuilder {
    pub params: Parameters,
}

impl LayerBuilder {
    /// A builder with the default parameters.
    pub fn new() -> (b: Self)
        ensures
            b.params == Parameters::spec_default(),
    {
        LayerBuilder { params: Parameters::default() }
    }

    /// Sets the blending.
    pub fn with_blend(self, blend: Blend) -> (b: Self)
        ensures
            b.params == (Parameters {
                blend: match blend {
                    Blend::Replace => BlendState::Replace,
                    Blend::AlphaBlending => BlendState::AlphaBlending,
                },
                ..self.params
            }),
    {
        let state = match blend {
            Blend::Replace => BlendState::Replace,
            Blend::AlphaBlending => BlendState::AlphaBlending,
        };
        LayerBuilder { params: Parameters { blend: state, ..self.params } }
    }

    /// Sets whether back faces are culled.
    pub fn with_cull_faces(self, cull_faces: bool) -> (b: Self)
        ensures
            b.params == (Parameters { cull_faces, ..self.params }),
    {
        LayerBuilder { params: Parameters { cull_faces, ..self.params } }
    }

    /// Sets the polygon drawing mode.
    pub fn with_draw_mode(self, draw_mode: DrawMode) -> (b: Self)
        ensures
            b.params == (Parameters { mode: draw_mode, ..self.params }),
    {
        LayerBuilder { params: Parameters { mode: draw_mode, ..self.params } }
    }

    /// Sets the depth comparison.
    pub fn with_depth_compare(self, depth_compare: Compare) -> (b: Self)
        ensures
            b.params == (Parameters { depth_stencil: Some(depth_compare), ..self.params }),
    {
        LayerBuilder { params: Parameters { depth_stencil: Some(depth_compare), ..self.params } }
    }

    /// The parameters of the layer to build.
    pub fn build(self) -> (p: Parameters)
        ensures
            p == self.params,
    {
        self.params
    }
}

/// The vertex buffer slots of a draw.
#[derive(Clone, Copy, Debug, PartialEq, Eq, Structural)]
pub struct Slots {
    pub instance: u32,
    pub instance_color: u32,
    pub vertex: u32,
}

/// Whether the instances carry a color.
#[derive(Clone, Copy, Debug, PartialEq, Eq, Structural)]
pub struct Instances {
    pub color: bool,
}

impl Instances {
    /// The slots: the instance model first, then its color when there is one, then the
    /// vertices.
    pub open spec fn spec_slots(self) -> Slots {
        Slots {
            instance: 0,
            instance_color: 1,
            vertex: if self.color {
                2
            } else {
                1
            },
        }
    }

    /// The vertex buffer slots.
    pub fn slots(self) -> (s: Slots)
        ensures
            s == self.spec_slots(),
            s == (Slots {
                instance: 0,
                instance_color: 1,
                vertex: if self.color {
                    2
                } else {
                    1
                },
            }),
    {
        Slots {
            instance: 0,
            instance_color: 1,
            vertex: if self.color {
                2
            } else {
                1
            },
        }
    }
}

/// The shader stages a binding is visible in.
#[derive(Clone, Copy, Debug, PartialEq, Eq, Structural)]
pub struct Visibility {
    pub vertex: bool,
    pub fragment: bool,
}

/// What a binding holds.
#[derive(Clone, Copy, Debug, PartialEq, Eq, Structural)]
pub enum EntryKind {
    Uniform,
    Texture2d,
    Texture3d,
    Sampler,
}

/// An entry of a bind group layout.
#[derive(Clone, Copy, Debug, PartialEq, Eq, Structural)]
pub struct Entry {
    pub binding: u32,
    pub visibility: Visibility,
    pub kind: EntryKind,
}

/// The entries of a bind group and its number.
pub struct GroupEntries {
    pub num: u32,
    pub entries: Vec<Entry>,
}

/// The bind group layouts of a shader: each group that holds entries.
pub struct Groups {
    pub globals: Option<GroupEntries>,
    pub textures: Option<GroupEntries>,
    pub lights: Option<GroupEntries>,
    pub spaces: Option<GroupEntries>,
}

pub open spec fn vertex_only() -> Visibility {
    Visibility { vertex: true, fragment: false }
}

pub open spec fn fragment_only() -> Visibility {
    Visibility { vertex: false, fragment: true }
}

pub open spec fn both_stages() -> Visibility {
    Visibility { vertex: true, fragment: true }
}

/// An entry for the binding if there is one.
pub open spec fn uniform_if(b: Option<u32>, v: Visibility) -> Seq<Entry> {
    match b {
        Some(n) => seq![Entry { binding: n, visibility: v, kind: EntryKind::Uniform }],
        None => Seq::empty(),
    }
}

/// The globals entries: the post data in both stages, the camera in the vertex stage and the
/// ambient light in the fragment stage.
pub open spec fn globals_entries(g: Globals) -> Seq<Entry> {
    uniform_if(g.post_data, both_stages()) + uniform_if(g.camera, vertex_only()) + uniform_if(
        g.ambient,
        fragment_only(),
    )
}

/// The texture entries: a 2d texture per map and the sampler.
pub open spec fn textures_entries(map: TextureBindings) -> Seq<Entry> {
    Seq::new(
        map.tmaps@.len(),
        |i: int|
            Entry {
                binding: map.tmaps@[i],
                visibility: fragment_only(),
                kind: EntryKind::Texture2d,
            },
    ).push(Entry { binding: map.smap, visibility: fragment_only(), kind: EntryKind::Sampler })
}

/// The light entries: the array and the length of each source array, as uniforms.
pub open spec fn lights_entries(arrays: Seq<SourceBindings>) -> Seq<Entry> {
    Seq::new(
        2 * arrays.len(),
        |k: int|
            Entry {
                binding: if k % 2 == 0 {
                    arrays[k / 2].binding_array
                } else {
                    arrays[k / 2].binding_len
                },
                visibility: fragment_only(),
                kind: EntryKind::Uniform,
            },
    )
}

/// The light space entries: the space array in both stages, a 3d texture per space and
/// the sampler.
pub open spec fn spaces_entries(s: SpaceBindings) -> Seq<Entry> {
    seq![Entry { binding: s.spaces, visibility: both_stages(), kind: EntryKind::Uniform }]
        + Seq::new(
        s.tspaces@.len(),
        |i: int|
            Entry {
                binding: s.tspaces@[i],
                visibility: fragment_only(),
                kind: EntryKind::Texture3d,
            },
    ) + seq![Entry { binding: s.sspace, visibility: fragment_only(), kind: EntryKind::Sampler }]
}

/// The number of the group, if it has a layout.
pub open spec fn group_number(g: Option<GroupEntries>) -> Seq<u32> {
    match g {
        Some(e) => seq![e.num],
        None => Seq::empty(),
    }
}

/// The numbers `0, 1, .., n - 1`.
pub open spec fn first_numbers(n: nat) -> Seq<u32> {
    Seq::new(n, |i: int| i as u32)
}

/// The group with the entries when there are entries.
pub open spec fn group_if(g: Option<GroupEntries>, num: u32, entries: Seq<Entry>) -> bool {
    if entries.len() == 0 {
        g is None
    } else {
        g matches Some(e) && e.num == num && e.entries@ == entries
    }
}

fn uniform(binding: u32, visibility: Visibility) -> (e: Entry)
    ensures
        e == (Entry { binding, visibility, kind: EntryKind::Uniform }),
{
    Entry { binding, visibility, kind: EntryKind::Uniform }
}

impl Groups {
    /// Whether these are the groups of the shader layout: a group without entries
    /// has no layout.
    pub open spec fn of_layout(&self, layout: Layout) -> bool {
        &&& group_if(self.globals, layout.globals.num, globals_entries(layout.globals.bindings))
        &&& layout.textures.bindings.map.tmaps@.len() == 0 ==> self.textures is None
        &&& layout.textures.bindings.map.tmaps@.len() != 0 ==> (self.textures matches Some(e)
            && e.num == layout.textures.num && e.entries@ == textures_entries(
            layout.textures.bindings.map,
        ))
        &&& group_if(self.lights, layout.lights.num, lights_entries(layout.lights.bindings.source_arrays@))
        &&& layout.spaces.bindings.light_spaces.tspaces@.len() == 0 ==> self.spaces is None
        &&& layout.spaces.bindings.light_spaces.tspaces@.len() != 0 ==> (self.spaces matches Some(e)
            && e.num == layout.spaces.num && e.entries@ == spaces_entries(
            layout.spaces.bindings.light_spaces,
        ))
    }

    /// The numbers of the groups that have layouts, in the order the pipeline
    /// layout lists them.
    pub open spec fn group_numbers(&self) -> Seq<u32> {
        group_number(self.globals) + group_number(self.textures) + group_number(self.lights)
            + group_number(self.spaces)
    }

    /// The bind group layout entries of a shader layout.
    pub fn new(layout: &Layout) -> (r: Groups)
        ensures
            r.of_layout(*layout),
    {
        let globals = Self::globals(layout);
        let textures = Self::textures(layout);
        let lights = Self::lights(layout);
        let spaces = Self::spaces(layout);
        Groups { globals, textures, lights, spaces }
    }

    fn globals(layout: &Layout) -> (r: Option<GroupEntries>)
        ensures
            group_if(r, layout.globals.num, globals_entries(layout.globals.bindings)),
    {
        let g = layout.globals.bindings;
        let mut entries: Vec<Entry> = Vec::new();
        if let Some(binding) = g.post_data {
            entries.push(uniform(binding, Visibility { vertex: true, fragment: true }));
        }
        if let Some(binding) = g.camera {
            entries.push(uniform(binding, Visibility { vertex: true, fragment: false }));
        }
        if let Some(binding) = g.ambient {
            entries.push(uniform(binding, Visibility { vertex: false, fragment: true }));
        }
        assert(entries@ =~= globals_entries(g));
        if entries.len() == 0 {
            None
        } else {
            Some(GroupEntries { num: layout.globals.num, entries })
        }
    }

    fn textures(layout: &Layout) -> (r: Option<GroupEntries>)
        ensures
            layout.textures.bindings.map.tmaps@.len() == 0 ==> r is None,
            layout.textures.bindings.map.tmaps@.len() != 0 ==> (r matches Some(e) && e.num
                == layout.textures.num && e.entries@ == textures_entries(
                layout.textures.bindings.map,
            )),
    {
        let tx = &layout.textures.bindings;
        if tx.is_empty() {
            return None;
        }
        let mut entries: Vec<Entry> = Vec::new();
        let mut i: usize = 0;
        while i < tx.map.tmaps.len()
            invariant
                i <= tx.map.tmaps@.len(),
                entries@ =~= Seq::new(
                    i as nat,
                    |j: int|
                        Entry {
                            binding: tx.map.tmaps@[j],
                            visibility: fragment_only(),
                            kind: EntryKind::Texture2d,
                        },
                ),
            decreases tx.map.tmaps@.len() - i,
        {
            entries.push(
                Entry {
                    binding: tx.map.tmaps[i],
                    visibility: Visibility { vertex: false, fragment: true },
                    kind: EntryKind::Texture2d,
                },
            );
            i = i + 1;
        }
        entries.push(
            Entry {
                binding: tx.map.smap,
                visibility: Visibility { vertex: false, fragment: true },
                kind: EntryKind::Sampler,
            },
        );
        assert(entries@ =~= textures_entries(tx.map));
        Some(GroupEntries { num: layout.textures.num, entries })
    }

    fn lights(layout: &Layout) -> (r: Option<GroupEntries>)
        ensures
            group_if(
                r,
                layout.lights.num,
                lights_entries(layout.lights.bindings.source_arrays@),
            ),
    {
        let arrays = &layout.lights.bindings.source_arrays;
        let mut entries: Vec<Entry> = Vec::new();
        let mut i: usize = 0;
        while i < arrays.len()
            invariant
                i <= arrays@.len(),
                entries@ =~= lights_entries(arrays@.take(i as int)),
            decreases arrays@.len() - i,
        {
            let b = arrays[i];
            entries.push(uniform(b.binding_array, Visibility { vertex: false, fragment: true }));
            entries.push(uniform(b.binding_len, Visibility { vertex: false, fragment: true }));
            i = i + 1;
            assert(entries@ =~= lights_entries(arrays@.take(i as int)));
        }
        assert(arrays@.take(i as int) =~= arrays@);
        if entries.len() == 0 {
            None
        } else {
            Some(GroupEntries { num: layout.lights.num, entries })
        }
    }

    fn spaces(layout: &Layout) -> (r: Option<GroupEntries>)
        ensures
            layout.spaces.bindings.light_spaces.tspaces@.len() == 0 ==> r is None,
            layout.spaces.bindings.light_spaces.tspaces@.len() != 0 ==> (r matches Some(e) && e.num
                == layout.spaces.num && e.entries@ == spaces_entries(
                layout.spaces.bindings.light_spaces,
            )),
    {
        let ls = &layout.spaces.bindings.light_spaces;
        if ls.is_empty() {
            return None;
        }
        let mut entries: Vec<Entry> = Vec::new();
        entries.push(uniform(ls.spaces, Visibility { vertex: true, fragment: true }));
        let mut i: usize = 0;
        while i < ls.tspaces.len()
            invariant
                i <= ls.tspaces@.len(),
                entries@ =~= seq![Entry { binding: ls.spaces, visibility: both_stages(), kind: EntryKind::Uniform }]
                    + Seq::new(
                    i as nat,
                    |j: int|
                        Entry {
                            binding: ls.tspaces@[j],
                            visibility: fragment_only(),
                            kind: EntryKind::Texture3d,
                        },
                ),
            decreases ls.tspaces@.len() - i,
        {
            entries.push(
                Entry {
                    binding: ls.tspaces[i],
                    visibility: Visibility { vertex: false, fragment: true },
                    kind: EntryKind::Texture3d,
                },
            );
            i = i + 1;
        }
        entries.push(
            Entry {
                binding: ls.sspace,
                visibility: Visibility { vertex: false, fragment: true },
                kind: EntryKind::Sampler,
            },
        );
        assert(entries@ =~= spaces_entries(*ls));
        Some(GroupEntries { num: layout.spaces.num, entries })
    }

    /// The numbers of the groups that have layouts, in order.
    pub fn layouts(&self) -> (r: Vec<u32>)
        ensures
            r@ == self.group_numbers(),
    {
        let mut r: Vec<u32> = Vec::new();
        if let Some(g) = &self.globals {
            r.push(g.num);
        }
        if let Some(g) = &self.textures {
            r.push(g.num);
        }
        if let Some(g) = &self.lights {
            r.push(g.num);
        }
        if let Some(g) = &self.spaces {
            r.push(g.num);
        }
        assert(r@ =~= (match self.globals {
            Some(g) => seq![g.num],
            None => Seq::empty(),
        }) + (match self.textures {
            Some(g) => seq![g.num],
            None => Seq::empty(),
        }) + (match self.lights {
            Some(g) => seq![g.num],
            None => Seq::empty(),
        }) + (match self.spaces {
            Some(g) => seq![g.num],
            None => Seq::empty(),
        }));
        r
    }
}

/// A render pipeline: the groups of its shader, its vertex buffer slots and how
/// it draws. Back faces are culled when `cull_back` is set; the depth test, when
/// there is one, writes the depth.
pub struct Pipeline {
    pub groups: Groups,
    pub instances: Instances,
    pub blend: BlendState,
    pub topology: Topology,
    pub cull_back: bool,
    pub mode: DrawMode,
    pub depth_compare: Option<Compare>,
}

impl Pipeline {
    /// Describes the pipeline of a shader layout with the parameters; the
    /// instances carry a color when the vertex inputs say so.
    pub fn new(layout: &Layout, instance_color: Option<bool>, params: Parameters) -> (r: Pipeline)
        ensures
            r.groups.of_layout(*layout),
            r.instances.color == (instance_color == Some(true)),
            r.blend == params.blend,
            r.topology == params.topology,
            r.cull_back == params.cull_faces,
            r.mode == params.mode,
            r.depth_compare == params.depth_stencil,
    {
        let color = match instance_color {
            Some(c) => c,
            None => false,
        };
        Pipeline {
            groups: Groups::new(layout),
            instances: Instances { color },
            blend: params.blend,
            topology: params.topology,
            cull_back: params.cull_faces,
            mode: params.mode,
            depth_compare: params.depth_stencil,
        }
    }

    /// The vertex buffer slots.
    pub fn slots(&self) -> (s: Slots)
        ensures
            s == self.instances.spec_slots(),
    {
        self.instances.slots()
    }

    /// The globals group, if the shader has one.
    pub fn globals(&self) -> (g: Option<&GroupEntries>)
        ensures
            g == match self.groups.globals {
                Some(e) => Some(&e),
                None => None::<&GroupEntries>,
            },
    {
        self.groups.globals.as_ref()
    }

    /// The textures group, if the shader has one.
    pub fn textures(&self) -> (g: Option<&GroupEntries>)
        ensures
            g == match self.groups.textures {
                Some(e) => Some(&e),
                None => None::<&GroupEntries>,
            },
    {
        self.groups.textures.as_ref()
    }

    /// The lights group, if the shader has one.
    pub fn lights(&self) -> (g: Option<&GroupEntries>)
        ensures
            g == match self.groups.lights {
                Some(e) => Some(&e),
                None => None::<&GroupEntries>,
            },
    {
        self.groups.lights.as_ref()
    }

    /// The spaces group, if the shader has one.
    pub fn spaces(&self) -> (g: Option<&GroupEntries>)
        ensures
            g == match self.groups.spaces {
                Some(e) => Some(&e),
                None => None::<&GroupEntries>,
            },
    {
        self.groups.spaces.as_ref()
    }
}

/// The format of a vertex attribute.
#[derive(Clone, Copy, Debug, PartialEq, Eq, Structural)]
pub enum VertexFormat {
    Float32x2,
    Float32x3,
}

/// A vertex attribute: its format, its byte offset and its shader location.
#[derive(Clone, Copy, Debug, PartialEq, Eq, Structural)]
pub struct VertexAttribute {
    pub format: VertexFormat,
    pub offset: u64,
    pub shader_location: u32,
}

/// The number of floats of each component a vertex has: the position, then the color and
/// the texture map when present.
pub open spec fn component_floats(position: u64, color: Option<u64>, texture: Option<u64>) -> Seq<u64> {
    seq![position] + (match color {
        Some(n) => seq![n],
        None => Seq::empty(),
    }) + (match texture {
        Some(n) => seq![n],
        None => Seq::empty(),
    })
}

/// The number of floats of the first `k` components.
pub open spec fn floats_before(ns: Seq<u64>, k: int) -> nat
    decreases k,
{
    if k <= 0 {
        0
    } else {
        floats_before(ns, k - 1) + ns[k - 1] as nat
    }
}

/// The attribute of the `i`-th component: packed floats, consecutive locations.
pub open spec fn attribute_at(ns: Seq<u64>, i: int, location: u32) -> VertexAttribute {
    VertexAttribute {
        format: if ns[i] == 2 {
            VertexFormat::Float32x2
        } else {
            VertexFormat::Float32x3
        },
        offset: (4 * floats_before(ns, i)) as u64,
        shader_location: (location + i) as u32,
    }
}

/// The attributes of a vertex buffer layout.
pub struct VertexInputLayout {
    pub size: usize,
    pub attrs: Vec<VertexAttribute>,
}

/// The vertex buffer layout.
pub struct VertexBufferLayout {
    pub array_stride: u64,
    pub step_per_instance: bool,
    pub attributes: Vec<VertexAttribute>,
}

impl VertexInputLayout {
    /// The format of a component of `n` floats; `n` is two or three.
    pub fn format(n: u64) -> (f: VertexFormat)
        requires
            n == 2 || n == 3,
        ensures
            f == if n == 2 {
                VertexFormat::Float32x2
            } else {
                VertexFormat::Float32x3
            },
    {
        if n == 2 {
            VertexFormat::Float32x2
        } else {
            VertexFormat::Float32x3
        }
    }

    /// The byte length of `n` floats.
    pub fn f32_offset(n: u64) -> (r: u64)
        requires
            n <= 3,
        ensures
            r == 4 * n,
    {
        n * 4
    }

    /// The attributes of a vertex of `size` bytes whose components have the given numbers
    /// of floats, from the given shader location on.
    pub fn new(
        size: usize,
        position: u64,
        color: Option<u64>,
        texture: Option<u64>,
        shader_location: u32,
    ) -> (r: Self)
        requires
            position == 2 || position == 3,
            color matches Some(n) ==> n == 2 || n == 3,
            texture matches Some(n) ==> n == 2 || n == 3,
            shader_location + 3 <= u32::MAX,
        ensures
            r.size == size,
            r.attrs@ == Seq::new(
                component_floats(position, color, texture).len(),
                |i: int| attribute_at(component_floats(position, color, texture), i, shader_location),
            ),
    {
        let mut ns: Vec<u64> = Vec::new();
        ns.push(position);
        if let Some(n) = color {
            ns.push(n);
        }
        if let Some(n) = texture {
            ns.push(n);
        }
        let ghost cf = component_floats(position, color, texture);
        assert(ns@ =~= cf);
        let mut attrs: Vec<VertexAttribute> = Vec::new();
        let mut offset: u64 = 0;
        let mut location = shader_location;
        let mut i: usize = 0;
        while i < ns.len()
            invariant
                ns@ == cf,
                ns@.len() <= 3,
                forall|j: int| 0 <= j < ns@.len() ==> #[trigger] ns@[j] == 2 || ns@[j] == 3,
                shader_location + 3 <= u32::MAX,
                i <= ns@.len(),
                offset == 4 * floats_before(cf, i as int),
                floats_before(cf, i as int) <= 3 * i,
                location == shader_location + i,
                attrs@ =~= Seq::new(i as nat, |j: int| attribute_at(cf, j, shader_location)),
            decreases ns@.len() - i,
        {
            let n = ns[i];
            let attr = VertexAttribute {
                format: Self::format(n),
                offset,
                shader_location: location,
            };
            attrs.push(attr);
            offset = offset + Self::f32_offset(n);
            location = location + 1;
            i = i + 1;
        }
        VertexInputLayout { size, attrs }
    }

    /// The buffer layout: one vertex per step.
    pub fn buffer_layout(&self) -> (r: VertexBufferLayout)
        ensures
            r.array_stride == self.size,
            !r.step_per_instance,
            r.attributes@ == self.attrs@,
    {
        VertexBufferLayout {
            array_stride: self.size as u64,
            step_per_instance: false,
            attributes: self.attrs.clone(),
        }
    }
}

/// The bind groups of a generated shader, as its pipeline lays them out, are
/// numbered from zero without a gap, in the order the pipeline layout lists them:
/// the position of each layout in the pipeline is the group number the shader
/// declares.
pub proof fn lemma_group_numbers_consecutive(
    layout: Layout,
    groups: Groups,
    view: crate::view::View,
    ambient: bool,
    textures: nat,
    arrays: Seq<SourceArray>,
    spaces: nat,
)
    requires
        layout.describes(view, ambient, textures, arrays, spaces),
        groups.of_layout(layout),
    ensures
        groups.group_numbers() == first_numbers(groups.group_numbers().len()),
{
    let g = groups.group_numbers();
    let used_globals = globals_used(view, ambient);
    assert(globals_entries(layout.globals.bindings).len() != 0 <==> used_globals);
    assert(lights_entries(layout.lights.bindings.source_arrays@).len() == 2 * arrays.len());
    assert(group_number(groups.globals) =~= if used_globals { seq![0u32] } else { Seq::empty() });
    assert(group_number(groups.textures) =~= if textures != 0 {
        seq![texture_group(view, ambient)]
    } else {
        Seq::empty()
    });
    assert(group_number(groups.lights) =~= if arrays.len() != 0 {
        seq![lights_group(view, ambient, textures)]
    } else {
        Seq::empty()
    });
    assert(group_number(groups.spaces) =~= if spaces != 0 {
        seq![spaces_group(view, ambient, textures, arrays.len())]
    } else {
        Seq::empty()
    });
    assert(g =~= first_numbers(g.len()));
}

/// The binding numbers of the entries, in order.
pub open spec fn entry_bindings(entries: Seq<Entry>) -> Seq<u32> {
    Seq::new(entries.len(), |i: int| entries[i].binding)
}

/// Whether the group, if it has a layout, numbers its bindings `0, 1, ..` in
/// the order of its entries.
pub open spec fn bindings_from_zero(g: Option<GroupEntries>) -> bool {
    match g {
        Some(e) => entry_bindings(e.entries@) == first_numbers(e.entries@.len()),
        None => true,
    }
}

/// In every bind group of a generated shader, as its pipeline lays it out, the
/// bindings are numbered from zero without a gap, in the order of the entries.
pub proof fn lemma_bindings_consecutive(
    layout: Layout,
    groups: Groups,
    view: crate::view::View,
    ambient: bool,
    textures: nat,
    arrays: Seq<SourceArray>,
    spaces: nat,
)
    requires
        layout.describes(view, ambient, textures, arrays, spaces),
        groups.of_layout(layout),
    ensures
        bindings_from_zero(groups.globals),
        bindings_from_zero(groups.textures),
        bindings_from_zero(groups.lights),
        bindings_from_zero(groups.spaces),
{
    if let Some(e) = groups.globals {
        assert(entry_bindings(e.entries@) =~= first_numbers(e.entries@.len()));
    }
    if let Some(e) = groups.textures {
        assert(entry_bindings(e.entries@) =~= first_numbers(e.entries@.len()));
    }
    if let Some(e) = groups.lights {
        assert forall|k: int| 0 <= k < e.entries@.len() implies #[trigger] entry_bindings(e.entries@)[k]
            == first_numbers(e.entries@.len())[k] by {
            let i = k / 2;
            assert(layout.lights.bindings.source_arrays@[i] == source_bindings(arrays, 0, i));
        }
        assert(entry_bindings(e.entries@) =~= first_numbers(e.entries@.len()));
    }
    if let Some(e) = groups.spaces {
        assert(entry_bindings(e.entries@) =~= first_numbers(e.entries@.len()));
    }
}

/// The entries of a group's layout, or none when the group has no layout.
pub open spec fn entries_of(g: Option<GroupEntries>) -> Seq<Entry> {
    match g {
        Some(e) => e.entries@,
        None => Seq::empty(),
    }
}

/// Each binding of a shader's layout is visible to the stages that read it: the
/// camera to the vertex stage alone, where the vertex position is computed; the post
/// data to both stages; the ambient light, the texture maps, the light sources and
/// the shadow textures to the fragment stage alone; and the light space transforms
/// to both stages, since the vertex stage moves the world position into each space.
pub proof fn lemma_entries_visible_where_read(r: Groups, layout: Layout)
    requires
        r.of_layout(layout),
    ensures
        layout.globals.bindings.camera matches Some(c) ==> entries_of(r.globals).contains(
            Entry { binding: c, visibility: Visibility { vertex: true, fragment: false }, kind: EntryKind::Uniform },
        ),
        layout.globals.bindings.post_data matches Some(p) ==> entries_of(r.globals).contains(
            Entry { binding: p, visibility: Visibility { vertex: true, fragment: true }, kind: EntryKind::Uniform },
        ),
        layout.globals.bindings.ambient matches Some(a) ==> entries_of(r.globals).contains(
            Entry { binding: a, visibility: Visibility { vertex: false, fragment: true }, kind: EntryKind::Uniform },
        ),
        forall|i: int|
            0 <= i < entries_of(r.globals).len() ==> #[trigger] entries_of(r.globals)[i].kind == EntryKind::Uniform,
        forall|i: int|
            0 <= i < entries_of(r.textures).len() ==> #[trigger] entries_of(r.textures)[i].visibility == (
            Visibility { vertex: false, fragment: true }),
        forall|i: int|
            0 <= i < entries_of(r.lights).len() ==> #[trigger] entries_of(r.lights)[i].visibility == (
            Visibility { vertex: false, fragment: true }),
        layout.spaces.bindings.light_spaces.tspaces@.len() != 0 ==> entries_of(r.spaces)[0] == (Entry {
            binding: layout.spaces.bindings.light_spaces.spaces,
            visibility: Visibility { vertex: true, fragment: true },
            kind: EntryKind::Uniform,
        }),
        forall|i: int|
            1 <= i < entries_of(r.spaces).len() ==> #[trigger] entries_of(r.spaces)[i].visibility == (
            Visibility { vertex: false, fragment: true }),
{
    let g = layout.globals.bindings;
    let ge = globals_entries(g);
    let pre = uniform_if(g.post_data, both_stages());
    if let Some(c) = g.camera {
        assert(ge[pre.len() as int] == Entry { binding: c, visibility: vertex_only(), kind: EntryKind::Uniform });
    }
    if let Some(p) = g.post_data {
        assert(ge[0] == Entry { binding: p, visibility: both_stages(), kind: EntryKind::Uniform });
    }
    if let Some(a) = g.ambient {
        let k = pre.len() + uniform_if(g.camera, vertex_only()).len() as int;
        assert(ge[k] == Entry { binding: a, visibility: fragment_only(), kind: EntryKind::Uniform });
    }
}

} // verus!
