//! The bind group layouts shared by the built-in shaders, and which of them each
//! shader uses.

use vstd::prelude::*;

use crate::pipeline::{both_stages, fragment_only, vertex_only, Entry, EntryKind, Visibility};

verus! {

/// The binding numbers of the built-in shaders' resources.
#[derive(Clone, Copy, Debug, PartialEq, Eq, Structural)]
pub struct BindingNumbers {
    pub tdiff: u32,
    pub sdiff: u32,
    pub camera: u32,
    pub data: u32,
    pub sources: u32,
    pub n_sources: u32,
    pub ambient: u32,
}

/// A built-in shader.
#[derive(Clone, Copy, Debug, PartialEq, Eq, Structural)]
pub enum Shader {
    Color,
    Flat,
    Post,
    Textured,
}

/// One of the shared layouts.
#[derive(Clone, Copy, Debug, PartialEq, Eq, Structural)]
pub enum LayoutKind {
    Textured,
    Camera,
    PostShaderData,
    Lights,
    Ambient,
}

/// A bind group layout: its entries and its label.
pub struct LayoutDesc {
    pub entries: Vec<Entry>,
    pub label: &'static str,
}

/// The shared bind group layouts.
pub struct Layouts {
    pub textured: LayoutDesc,
    pub camera: LayoutDesc,
    pub post_shader_data: LayoutDesc,
    pub lights: LayoutDesc,
    pub ambient: LayoutDesc,
}

/// A uniform buffer entry.
pub open spec fn uniform(binding: u32, visibility: Visibility) -> Entry {
    Entry { binding, visibility, kind: EntryKind::Uniform }
}

/// The entries of each shared layout.
pub open spec fn layout_entries(kind: LayoutKind, b: BindingNumbers) -> Seq<Entry> {
    match kind {
        LayoutKind::Textured => seq![
            Entry { binding: b.tdiff, visibility: fragment_only(), kind: EntryKind::Texture2d },
            Entry { binding: b.sdiff, visibility: fragment_only(), kind: EntryKind::Sampler },
        ],
        LayoutKind::Camera => seq![uniform(b.camera, vertex_only())],
        LayoutKind::PostShaderData => seq![uniform(b.data, both_stages())],
        LayoutKind::Lights => seq![uniform(b.sources, fragment_only()), uniform(b.n_sources, fragment_only())],
        LayoutKind::Ambient => seq![uniform(b.ambient, fragment_only())],
    }
}

/// The label of each shared layout.
pub open spec fn layout_label(kind: LayoutKind) -> Seq<char> {
    match kind {
        LayoutKind::Textured => "texture bind group layout"@,
        LayoutKind::Camera => "camera bind group layout"@,
        LayoutKind::PostShaderData => "post shader data bind group layout"@,
        LayoutKind::Lights => "lights bind group layout"@,
        LayoutKind::Ambient => "ambient bind group layout"@,
    }
}

/// The layouts each shader binds, in the order of their group numbers.
pub open spec fn shader_layouts(shader: Shader) -> Seq<LayoutKind> {
    match shader {
        Shader::Color => seq![LayoutKind::Camera, LayoutKind::Lights, LayoutKind::Ambient],
        Shader::Flat => seq![LayoutKind::Textured],
        Shader::Post => seq![LayoutKind::PostShaderData, LayoutKind::Textured],
        Shader::Textured => seq![LayoutKind::Camera, LayoutKind::Textured, LayoutKind::Lights, LayoutKind::Ambient],
    }
}

impl LayoutDesc {
    /// Whether this is the layout `kind` for the binding numbers `b`.
    pub open spec fn describes(&self, kind: LayoutKind, b: BindingNumbers) -> bool {
        self.entries@ == layout_entries(kind, b) && self.label@ == layout_label(kind)
    }
}

fn fragment() -> (v: Visibility)
    ensures
        v == fragment_only(),
{
    Visibility { vertex: false, fragment: true }
}

fn uniform_entry(binding: u32, visibility: Visibility) -> (e: Entry)
    ensures
        e == uniform(binding, visibility),
{
    Entry { binding, visibility, kind: EntryKind::Uniform }
}

impl Layouts {
    /// The layout of the given kind.
    pub open spec fn layout(&self, kind: LayoutKind) -> LayoutDesc {
        match kind {
            LayoutKind::Textured => self.textured,
            LayoutKind::Camera => self.camera,
            LayoutKind::PostShaderData => self.post_shader_data,
            LayoutKind::Lights => self.lights,
            LayoutKind::Ambient => self.ambient,
        }
    }

    /// Describes the shared layouts for the binding numbers `b`.
    pub fn new(b: BindingNumbers) -> (r: Layouts)
        ensures
            forall|k: LayoutKind| #[trigger] r.layout(k).describes(k, b),
    {
        proof {
            reveal_strlit("texture bind group layout");
            reveal_strlit("camera bind group layout");
            reveal_strlit("post shader data bind group layout");
            reveal_strlit("lights bind group layout");
            reveal_strlit("ambient bind group layout");
        }
        let mut textured: Vec<Entry> = Vec::new();
        textured.push(Entry { binding: b.tdiff, visibility: fragment(), kind: EntryKind::Texture2d });
        textured.push(Entry { binding: b.sdiff, visibility: fragment(), kind: EntryKind::Sampler });
        let mut camera: Vec<Entry> = Vec::new();
        camera.push(uniform_entry(b.camera, Visibility { vertex: true, fragment: false }));
        let mut post_shader_data: Vec<Entry> = Vec::new();
        post_shader_data.push(uniform_entry(b.data, Visibility { vertex: true, fragment: true }));
        let mut lights: Vec<Entry> = Vec::new();
        lights.push(uniform_entry(b.sources, fragment()));
        lights.push(uniform_entry(b.n_sources, fragment()));
        let mut ambient: Vec<Entry> = Vec::new();
        ambient.push(uniform_entry(b.ambient, fragment()));
        let r = Layouts {
            textured: LayoutDesc { entries: textured, label: "texture bind group layout" },
            camera: LayoutDesc { entries: camera, label: "camera bind group layout" },
            post_shader_data: LayoutDesc {
                entries: post_shader_data,
                label: "post shader data bind group layout",
            },
            lights: LayoutDesc { entries: lights, label: "lights bind group layout" },
            ambient: LayoutDesc { entries: ambient, label: "ambient bind group layout" },
        };
        assert(r.textured.entries@ =~= layout_entries(LayoutKind::Textured, b));
        assert(r.camera.entries@ =~= layout_entries(LayoutKind::Camera, b));
        assert(r.post_shader_data.entries@ =~= layout_entries(LayoutKind::PostShaderData, b));
        assert(r.lights.entries@ =~= layout_entries(LayoutKind::Lights, b));
        assert(r.ambient.entries@ =~= layout_entries(LayoutKind::Ambient, b));
        r
    }

    /// The layouts `shader` binds, in the order of their group numbers.
    pub fn bind_group_layouts(&self, shader: Shader) -> (r: Vec<LayoutKind>)
        ensures
            r@ == shader_layouts(shader),
    {
        let mut r: Vec<LayoutKind> = Vec::new();
        match shader {
            Shader::Color => {
                r.push(LayoutKind::Camera);
                r.push(LayoutKind::Lights);
                r.push(LayoutKind::Ambient);
            },
            Shader::Flat => r.push(LayoutKind::Textured),
            Shader::Post => {
                r.push(LayoutKind::PostShaderData);
                r.push(LayoutKind::Textured);
            },
            Shader::Textured => {
                r.push(LayoutKind::Camera);
                r.push(LayoutKind::Textured);
                r.push(LayoutKind::Lights);
                r.push(LayoutKind::Ambient);
            },
        }
        assert(r@ =~= shader_layouts(shader));
        r
    }
}

} // verus!
