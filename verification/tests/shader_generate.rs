use dunge::parts::{Color, Dimension, Fragment};
use dunge::pipeline::Groups;
use dunge::shader::{Scheme, Shader, Vertex};
use dunge::sources::{SourceArray, SourceArrays, SourceKind};
use dunge::spaces::{LightSpaces, SpaceKind};
use dunge::textures::TexturesNumber;
use dunge::view::View;

fn colored_scheme() -> Scheme {
    Scheme {
        vert: Vertex {
            dimension: Dimension::D2,
            fragment: Fragment { vertex_color: true, vertex_texture: false },
        },
        view: View::Camera,
        ambient: false,
        static_color: None,
        textures: TexturesNumber::n0(),
        source_arrays: SourceArrays::empty(),
        light_spaces: LightSpaces::empty(),
    }
}

#[test]
fn generate_colored_vertices() {
    let (layout, s) = Shader::generate(colored_scheme());
    assert_eq!(
        s.types,
        "struct InstanceInput {\n    @location(0) r0: vec4<f32>,\n    @location(1) r1: vec4<f32>,\n    \
         @location(2) r2: vec4<f32>,\n    @location(3) r3: vec4<f32>,\n}\n\n\
         struct VertexInput {\n    @location(4) pos: vec2<f32>,\n    @location(5) col: vec3<f32>,\n}\n\n\
         struct VertexOutput {\n    @builtin(position) pos: vec4<f32>,\n    @location(0) col: vec3<f32>,\n}\n\n\
         struct Camera {\n    view: mat4x4<f32>,\n}\n\n",
    );
    assert_eq!(s.groups, "@group(0) @binding(0) var<uniform> camera: Camera;\n");
    assert_eq!(
        s.vertex_out,
        "let world = model * vec4(input.pos, 0., 1.);\n    out.pos = camera.view * world;\n    out.col = input.col;\n",
    );
    assert_eq!(s.fragment_col, "col = out.col;\n");
    assert_eq!(layout.globals.num, 0);
    assert_eq!(layout.globals.bindings.camera, Some(0));
    assert_eq!(layout.globals.bindings.ambient, None);
    assert_eq!(layout.textures.num, 1);
}

#[test]
fn generate_without_anything_colors_black() {
    let scheme = Scheme {
        vert: Vertex {
            dimension: Dimension::D3,
            fragment: Fragment { vertex_color: false, vertex_texture: false },
        },
        view: View::Absent,
        ambient: false,
        static_color: None,
        textures: TexturesNumber::n0(),
        source_arrays: SourceArrays::empty(),
        light_spaces: LightSpaces::empty(),
    };
    let (layout, s) = Shader::generate(scheme);
    assert_eq!(s.groups, "");
    assert_eq!(s.vertex_out, "let world = model * vec4(input.pos, 1.);\n    out.pos = world;\n");
    assert_eq!(s.fragment_col, "col = vec3(0.);\n");
    assert_eq!(layout.textures.num, 0);
    assert_eq!(layout.lights.num, 0);
    assert_eq!(layout.spaces.num, 0);
}

#[test]
fn generate_with_ambient_and_static_color() {
    let scheme = Scheme {
        vert: Vertex {
            dimension: Dimension::D2,
            fragment: Fragment { vertex_color: false, vertex_texture: false },
        },
        view: View::Camera,
        ambient: true,
        static_color: Some(Color { r: "1.0".to_string(), g: "0.5".to_string(), b: "0.0".to_string() }),
        textures: TexturesNumber::n0(),
        source_arrays: SourceArrays::empty(),
        light_spaces: LightSpaces::empty(),
    };
    let (layout, s) = Shader::generate(scheme);
    assert_eq!(
        s.groups,
        "@group(0) @binding(0) var<uniform> camera: Camera;\n@group(0) @binding(1) var<uniform> ambient: vec4<f32>;\n",
    );
    assert_eq!(s.fragment_col, "let light = ambient.rgb;\n    col = light * vec3(1.0, 0.5, 0.0);\n");
    assert_eq!(layout.globals.bindings.ambient, Some(1));
}

#[test]
fn generate_numbers_groups_without_gaps() {
    let scheme = Scheme {
        vert: Vertex {
            dimension: Dimension::D3,
            fragment: Fragment { vertex_color: false, vertex_texture: true },
        },
        view: View::Absent,
        ambient: false,
        static_color: None,
        textures: TexturesNumber::n1(),
        source_arrays: SourceArrays::new(Box::leak(vec![SourceArray::new(SourceKind::Glow, 2)].into_boxed_slice())),
        light_spaces: LightSpaces::new(Box::leak(vec![SpaceKind::Rgba].into_boxed_slice())),
    };
    let (layout, _) = Shader::generate(scheme);
    assert_eq!(layout.textures.num, 0);
    assert_eq!(layout.lights.num, 1);
    assert_eq!(layout.spaces.num, 2);
    assert_eq!(layout.textures.bindings.map.tmaps, vec![0]);
    assert_eq!(layout.textures.bindings.map.smap, 1);
}

#[test]
fn pipeline_groups_follow_the_shader_numbers() {
    let scheme = Scheme {
        vert: Vertex {
            dimension: Dimension::D3,
            fragment: Fragment { vertex_color: false, vertex_texture: true },
        },
        view: View::Camera,
        ambient: true,
        static_color: None,
        textures: TexturesNumber::n2(),
        source_arrays: SourceArrays::new(Box::leak(
            vec![SourceArray::new(SourceKind::Glow, 1), SourceArray::new(SourceKind::Gloom, 3)].into_boxed_slice(),
        )),
        light_spaces: LightSpaces::new(Box::leak(vec![SpaceKind::Gray].into_boxed_slice())),
    };
    let (layout, _) = Shader::generate(scheme);
    let groups = Groups::new(&layout);
    assert_eq!(groups.layouts(), vec![0, 1, 2, 3]);
    for g in [&groups.globals, &groups.textures, &groups.lights, &groups.spaces] {
        let e = g.as_ref().expect("group");
        let bindings: Vec<u32> = e.entries.iter().map(|e| e.binding).collect();
        let expected: Vec<u32> = (0..e.entries.len() as u32).collect();
        assert_eq!(bindings, expected);
    }
    assert_eq!(groups.textures.as_ref().map(|g| g.entries.len()), Some(3));
    assert_eq!(groups.lights.as_ref().map(|g| g.entries.len()), Some(4));
    assert_eq!(groups.spaces.as_ref().map(|g| g.entries.len()), Some(3));

    let (layout, _) = Shader::generate(colored_scheme());
    assert_eq!(Groups::new(&layout).layouts(), vec![0]);
}
