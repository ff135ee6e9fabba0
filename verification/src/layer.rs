//! Layers: the render pipeline settings a shader is drawn with.

use vstd::prelude::*;

use crate::format::Format;
use crate::pipeline::Compare;

verus! {

/// A layer's blend mode. `NoBlend` writes colors without blending.
#[derive(Clone, Copy, Debug, PartialEq, Eq, Structural)]
pub enum Blend {
    NoBlend,
    Replace,
    Alpha,
}

impl Default for Blend {
    fn default() -> (b: Self)
        ensures
            b == Blend::NoBlend,
    {
        Blend::NoBlend
    }
}

/// The blend state of a color target.
#[derive(Clone, Copy, Debug, PartialEq, Eq, Structural)]
pub enum BlendState {
    Replace,
    AlphaBlending,
}

impl Blend {
    pub open spec fn spec_state(self) -> Option<BlendState> {
        match self {
            Blend::NoBlend => None,
            Blend::Replace => Some(BlendState::Replace),
            Blend::Alpha => Some(BlendState::AlphaBlending),
        }
    }

    /// The blend state of the color target, if any.
    pub fn state(self) -> (s: Option<BlendState>)
        ensures
            s == self.spec_state(),
    {
        match self {
            Blend::NoBlend => None,
            Blend::Replace => Some(BlendState::Replace),
            Blend::Alpha => Some(BlendState::AlphaBlending),
        }
    }
}

/// A layer's primitive topology.
#[derive(Clone, Copy, Debug, PartialEq, Eq, Structural)]
pub enum Topology {
    PointList,
    LineList,
    LineStrip,
    TriangleList,
    TriangleStrip,
}

impl Default for Topology {
    fn default() -> (t: Self)
        ensures
            t == Topology::TriangleList,
    {
        Topology::TriangleList
    }
}

/// Calls `wgpu::PrimitiveTopology::is_strip` on the wgpu topology of the same name.
/// Its source returns true for `LineStrip` and `TriangleStrip` and false for the lists.
#[verifier::external_body]
fn topology_is_strip(t: Topology) -> (b: bool)
    ensures
        b == (t == Topology::LineStrip || t == Topology::TriangleStrip),
{
    let t = match t {
        Topology::PointList => wgpu::PrimitiveTopology::PointList,
        Topology::LineList => wgpu::PrimitiveTopology::LineList,
        Topology::LineStrip => wgpu::PrimitiveTopology::LineStrip,
        Topology::TriangleList => wgpu::PrimitiveTopology::TriangleList,
        Topology::TriangleStrip => wgpu::PrimitiveTopology::TriangleStrip,
    };
    t.is_strip()
}

impl Topology {
    /// Whether the topology is a strip.
    pub fn is_strip(self) -> (b: bool)
        ensures
            b == (self == Topology::LineStrip || self == Topology::TriangleStrip),
    {
        topology_is_strip(self)
    }
}

/// A layer's polygon mode.
#[derive(Clone, Copy, Debug, PartialEq, Eq, Structural)]
pub enum Polygon {
    Fill,
    Line,
    Point,
}

impl Default for Polygon {
    fn default() -> (p: Self)
        ensures
            p == Polygon::Fill,
    {
        Polygon::Fill
    }
}

/// The layer configuration.
#[derive(Clone, Copy, Debug, PartialEq, Eq, Structural)]
pub struct Config {
    pub format: Format,
    pub blend: Blend,
    pub topology: Topology,
    pub polygon: Polygon,
    pub depth: bool,
}

impl Config {
    /// The default configuration with the given format.
    pub fn from_format(format: Format) -> (c: Self)
        ensures
            c == (Config {
                format,
                blend: Blend::NoBlend,
                topology: Topology::TriangleList,
                polygon: Polygon::Fill,
                depth: false,
            }),
    {
        Config {
            format,
            blend: Blend::NoBlend,
            topology: Topology::TriangleList,
            polygon: Polygon::Fill,
            depth: false,
        }
    }
}

impl Default for Config {
    fn default() -> (c: Self)
        ensures
            c == (Config {
                format: Format::SrgbAlpha,
                blend: Blend::NoBlend,
                topology: Topology::TriangleList,
                polygon: Polygon::Fill,
                depth: false,
            }),
    {
        Config::from_format(Format::SrgbAlpha)
    }
}

/// The depth test of a layer: the depth format, whether depth is written, and the
/// comparison that passes a fragment.
#[derive(Clone, Copy, Debug, PartialEq, Eq, Structural)]
pub struct DepthState {
    pub format: Format,
    pub write_enabled: bool,
    pub depth_compare: Compare,
}

/// The vertex buffer slots of a shader: where the vertices and the instances go.
#[derive(Clone, Copy, Debug, PartialEq, Eq, Structural)]
pub struct SlotNumbers {
    pub vertex: u32,
    pub instance: u32,
}

/// The settings of a layer's render pipeline.
#[derive(Clone, Copy, Debug, PartialEq, Eq, Structural)]
pub struct PipelineDesc {
    pub format: Format,
    pub blend: Option<BlendState>,
    pub topology: Topology,
    pub strip_index_u32: bool,
    pub cull_back: bool,
    pub polygon: Polygon,
    pub depth: Option<DepthState>,
}

/// The pipeline settings of a layer with the given configuration.
pub open spec fn spec_pipeline_desc(conf: Config) -> PipelineDesc {
    PipelineDesc {
        format: conf.format,
        blend: conf.blend.spec_state(),
        topology: conf.topology,
        strip_index_u32: conf.topology == Topology::LineStrip || conf.topology
            == Topology::TriangleStrip,
        cull_back: true,
        polygon: conf.polygon,
        depth: if conf.depth {
            Some(DepthState { format: Format::Depth, write_enabled: true, depth_compare: Compare::LessEqual })
        } else {
            None
        },
    }
}

/// A render layer: its pipeline settings and the vertex buffer slots of its shader.
#[derive(Clone, Copy, Debug, PartialEq, Eq, Structural)]
pub struct Layer {
    slots: SlotNumbers,
    desc: PipelineDesc,
}

impl Layer {
    pub closed spec fn spec_desc(self) -> PipelineDesc {
        self.desc
    }

    pub closed spec fn spec_slots(self) -> SlotNumbers {
        self.slots
    }

    /// The vertex entry point of layer shaders.
    pub fn vertex_entry() -> (s: &'static str)
        ensures
            s@ == "vs"@,
    {
        "vs"
    }

    /// The fragment entry point of layer shaders.
    pub fn fragment_entry() -> (s: &'static str)
        ensures
            s@ == "fs"@,
    {
        "fs"
    }

    /// A layer of a shader with the given slots and configuration: strip topologies
    /// index with `u32`, back faces are culled, and the depth test (writing depth,
    /// passing on less or equal) is on when the configuration asks for it.
    pub fn new(conf: Config, slots: SlotNumbers) -> (l: Self)
        ensures
            l.spec_desc() == spec_pipeline_desc(conf),
            l.spec_slots() == slots,
    {
        let desc = PipelineDesc {
            format: conf.format,
            blend: conf.blend.state(),
            topology: conf.topology,
            strip_index_u32: conf.topology.is_strip(),
            cull_back: true,
            polygon: conf.polygon,
            depth: if conf.depth {
                Some(DepthState { format: Format::Depth, write_enabled: true, depth_compare: Compare::LessEqual })
            } else {
                None
            },
        };
        Layer { slots, desc }
    }

    /// The vertex buffer slots of the layer's shader.
    pub fn slots(&self) -> (s: SlotNumbers)
        ensures
            s == self.spec_slots(),
    {
        self.slots
    }

    /// The pipeline settings.
    pub fn desc(&self) -> (d: PipelineDesc)
        ensures
            d == self.spec_desc(),
    {
        self.desc
    }

    /// Whether the layer uses depth.
    pub fn depth(&self) -> (b: bool)
        ensures
            b == (self.spec_desc().depth is Some),
    {
        self.desc.depth.is_some()
    }

    /// Returns the color format used by the layer.
    pub fn format(&self) -> (f: Format)
        ensures
            f == self.spec_desc().format,
    {
        self.desc.format
    }
}

/// What a render target offers a layer: its color format and whether it has a
/// depth buffer.
#[derive(Clone, Copy, Debug, PartialEq, Eq, Structural)]
pub struct TargetState {
    pub format: Format,
    pub use_depth: bool,
}

/// Why a layer cannot draw on a target.
#[derive(Clone, Copy, Debug, PartialEq, Eq, Structural)]
pub enum LayerMismatch {
    /// The layer's color format is not the target's.
    Format,
    /// The layer uses depth and the target has no depth buffer.
    Depth,
}

impl LayerMismatch {
    /// The message of the mismatch.
    pub fn message(self) -> (s: &'static str)
        ensures
            s@ == match self {
                LayerMismatch::Format => "layer format doesn't match frame format"@,
                LayerMismatch::Depth => "the target for a layer with depth must contain a depth buffer"@,
            },
    {
        proof {
            reveal_strlit("layer format doesn't match frame format");
            reveal_strlit("the target for a layer with depth must contain a depth buffer");
        }
        match self {
            LayerMismatch::Format => "layer format doesn't match frame format",
            LayerMismatch::Depth => "the target for a layer with depth must contain a depth buffer",
        }
    }
}

impl TargetState {
    /// Checks that the layer can draw on the target: the formats match, and a
    /// layer with depth needs a depth buffer. The format is checked first.
    pub fn check_layer(self, layer: &Layer) -> (r: Result<(), LayerMismatch>)
        ensures
            r == if self.format != layer.spec_desc().format {
                Err(LayerMismatch::Format)
            } else if layer.spec_desc().depth is Some && !self.use_depth {
                Err(LayerMismatch::Depth)
            } else {
                Ok::<(), LayerMismatch>(())
            },
    {
        if self.format != layer.format() {
            return Err(LayerMismatch::Format);
        }
        if layer.depth() && !self.use_depth {
            return Err(LayerMismatch::Depth);
        }
        Ok(())
    }
}

/// Each blend mode has a state of its own: no blending has none, replacing replaces
/// and alpha blending blends by alpha, so two modes with one state are one mode.
pub proof fn lemma_blend_states(a: Blend, b: Blend)
    ensures
        a.spec_state() == b.spec_state() ==> a == b,
        a == Blend::NoBlend <==> a.spec_state() is None,
        a == Blend::Replace <==> a.spec_state() == Some(BlendState::Replace),
        a == Blend::Alpha <==> a.spec_state() == Some(BlendState::AlphaBlending),
{
}

} // verus!
