//! The post processor: the pipeline that draws the frame buffer on the screen.

use vstd::prelude::*;

use crate::layer::{BlendState, Topology};
use crate::screen::{BufferSize, FrameFilter};
use crate::pipeline::{
    both_stages, fragment_only, Compare, DrawMode, Entry, EntryKind, Parameters, Pipeline,
};
use crate::shader::{Layout, PostScheme};
use crate::textures::TextureBindings;

verus! {

/// The group of the post processor's data.
pub const DATA_GROUP: u32 = 0;

/// The binding of the post processor's data.
pub const DATA_BINDING: u32 = 0;

/// The group of the frame texture.
pub const TEXTURE_GROUP: u32 = 1;

/// The binding of the frame texture.
pub const TEXTURE_TDIFF_BINDING: u32 = 0;

/// The binding of the frame sampler.
pub const TEXTURE_SDIFF_BINDING: u32 = 1;

/// The scheme of the post-processing shader: its data and its frame map.
pub fn post_scheme() -> (s: PostScheme)
    ensures
        s.post_data == DATA_BINDING,
        s.map.tmaps@ == seq![TEXTURE_TDIFF_BINDING],
        s.map.smap == TEXTURE_SDIFF_BINDING,
{
    let mut tmaps: Vec<u32> = Vec::new();
    tmaps.push(TEXTURE_TDIFF_BINDING);
    PostScheme { post_data: DATA_BINDING, map: TextureBindings { tmaps, smap: TEXTURE_SDIFF_BINDING } }
}

/// The parameters of the post-processing pipeline: alpha blending over a triangle
/// strip, no culling and no depth.
pub fn post_parameters() -> (p: Parameters)
    ensures
        p == (Parameters {
            blend: BlendState::AlphaBlending,
            topology: Topology::TriangleStrip,
            cull_faces: false,
            mode: DrawMode::Fill,
            depth_stencil: None::<Compare>,
        }),
{
    Parameters {
        blend: BlendState::AlphaBlending,
        topology: Topology::TriangleStrip,
        cull_faces: false,
        mode: DrawMode::Fill,
        depth_stencil: None,
    }
}

/// The post-processing pipeline: the data in group 0, seen by both stages, and
/// the frame texture and its sampler in group 1.
pub fn post_pipeline() -> (p: Pipeline)
    ensures
        p.groups.globals matches Some(g) && g.num == DATA_GROUP && g.entries@ == seq![
            Entry { binding: DATA_BINDING, visibility: both_stages(), kind: EntryKind::Uniform },
        ],
        p.groups.textures matches Some(g) && g.num == TEXTURE_GROUP && g.entries@ == seq![
            Entry { binding: TEXTURE_TDIFF_BINDING, visibility: fragment_only(), kind: EntryKind::Texture2d },
            Entry { binding: TEXTURE_SDIFF_BINDING, visibility: fragment_only(), kind: EntryKind::Sampler },
        ],
        p.groups.lights is None,
        p.groups.spaces is None,
        !p.instances.color,
        p.blend == BlendState::AlphaBlending,
        p.topology == Topology::TriangleStrip,
        !p.cull_back,
        p.mode == DrawMode::Fill,
        p.depth_compare is None,
{
    let scheme = post_scheme();
    let layout = Layout::postproc(scheme.post_data, scheme.map);
    let p = Pipeline::new(&layout, None, post_parameters());
    proof {
        let g = p.groups.globals.unwrap();
        assert(g.entries@ =~= seq![
            Entry { binding: DATA_BINDING, visibility: both_stages(), kind: EntryKind::Uniform },
        ]);
        let t = p.groups.textures.unwrap();
        assert(t.entries@ =~= seq![
            Entry { binding: TEXTURE_TDIFF_BINDING, visibility: fragment_only(), kind: EntryKind::Texture2d },
            Entry { binding: TEXTURE_SDIFF_BINDING, visibility: fragment_only(), kind: EntryKind::Sampler },
        ]);
    }
    p
}

/// The frame parameters of the post processor, but for its floating point
/// factor and vignette, which the caller compares itself.
#[derive(Clone, Copy, Debug, PartialEq, Eq, Structural)]
pub struct FrameParameters {
    pub buffer_size: BufferSize,
    pub filter: FrameFilter,
    pub antialiasing: bool,
}

/// What the post processor has to make again after its parameters change.
#[derive(Clone, Copy, Debug, PartialEq, Eq, Structural)]
pub struct Remake {
    /// The pipeline: antialiasing or the vignette changed.
    pub pipeline: bool,
    /// The sampler: the filter changed.
    pub sampler: bool,
    /// The data buffer: the size factor changed.
    pub data: bool,
    /// The bind group of the frame: the buffer size changed.
    pub bind_group: bool,
}

/// The post processor's current parameters.
pub struct PostProcessor {
    params: FrameParameters,
}

impl PostProcessor {
    pub closed spec fn spec_params(&self) -> FrameParameters {
        self.params
    }

    /// A post processor with the default parameters: the smallest buffer, the
    /// nearest filter and no antialiasing.
    pub fn new() -> (p: Self)
        ensures
            p.spec_params() == (FrameParameters {
                buffer_size: BufferSize(1, 1),
                filter: FrameFilter::Nearest,
                antialiasing: false,
            }),
    {
        PostProcessor {
            params: FrameParameters {
                buffer_size: BufferSize::min(),
                filter: FrameFilter::Nearest,
                antialiasing: false,
            },
        }
    }

    /// The current parameters.
    pub fn params(&self) -> (p: FrameParameters)
        ensures
            p == self.spec_params(),
    {
        self.params
    }

    /// Takes new parameters and tells what to make again; `vignette_changed` and
    /// `factor_changed` tell whether those floating point parameters changed.
    pub fn set_parameters(&mut self, params: FrameParameters, vignette_changed: bool, factor_changed: bool) -> (r:
        Remake)
        ensures
            r == (Remake {
                pipeline: old(self).spec_params().antialiasing != params.antialiasing || vignette_changed,
                sampler: old(self).spec_params().filter != params.filter,
                data: factor_changed,
                bind_group: old(self).spec_params().buffer_size != params.buffer_size,
            }),
            final(self).spec_params() == params,
    {
        let old_params = self.params;
        let r = Remake {
            pipeline: old_params.antialiasing != params.antialiasing || vignette_changed,
            sampler: old_params.filter != params.filter,
            data: factor_changed,
            bind_group: old_params.buffer_size != params.buffer_size,
        };
        self.params = params;
        r
    }
}

} // verus!
