use dunge::nodes::Binding;
use dunge::out::Out;
use dunge::post::Post;
use dunge::sources::{SourceArray, SourceArrays, SourceKind};
use dunge::spaces::{LightSpaces, SpaceKind};
use dunge::textures::TexturesNumber;

#[test]
fn texture_maps_and_sampler_are_declared_in_order() {
    let mut o = Out::new();
    let mut b = Binding::with_group(1);
    let t = TexturesNumber::n2().declare_group(&mut b, &mut o);
    assert_eq!(t.tmaps, vec![0, 1]);
    assert_eq!(t.smap, 2);
    assert_eq!(b.get(), 3);
    assert_eq!(
        o.as_str(),
        "@group(1) @binding(0) var tmap_0: texture_2d<f32>;\n\
         @group(1) @binding(1) var tmap_1: texture_2d<f32>;\n\
         @group(1) @binding(2) var smap: sampler;\n",
    );

    let mut o = Out::new();
    let mut b = Binding::with_group(1);
    let t = TexturesNumber::n0().declare_group(&mut b, &mut o);
    assert!(t.tmaps.is_empty());
    assert_eq!(t.smap, 0);
    assert_eq!(o.as_str(), "");
}

#[test]
fn texture_sampling_text() {
    let mut o = Out::new();
    TexturesNumber::n0().calc_fragment(&mut o);
    assert_eq!(o.as_str(), "");

    let mut o = Out::new();
    TexturesNumber::n1().calc_fragment(&mut o);
    assert_eq!(o.as_str(), "let tex = textureSample(tmap_0, smap, out.map);\n    ");

    let mut o = Out::new();
    TexturesNumber::n2().with_discard_threshold("0.5".to_string()).calc_fragment(&mut o);
    assert_eq!(
        o.as_str(),
        "var tex = vec4(0.);\n    \
         let tex_0 = textureSample(tmap_0, smap, out.map);\n    tex = mix(tex, tex_0, tex_0.a);\n    \
         let tex_1 = textureSample(tmap_1, smap, out.map);\n    tex = mix(tex, tex_1, tex_1.a);\n    \
         if tex.a < 0.5 { discard; }\n    ",
    );
    assert_eq!(TexturesNumber::n3().len(), 3);
    assert!(TexturesNumber::n0().is_empty());
    assert!(TexturesNumber::n4().has_textures());
}

#[test]
fn light_spaces_text() {
    let spaces = LightSpaces::new(Box::leak(vec![SpaceKind::Rgba, SpaceKind::Gray].into_boxed_slice()));
    let mut o = Out::new();
    spaces.define_type(&mut o);
    assert_eq!(o.as_str(), "struct Space {\n    model: mat4x4<f32>,\n    col: vec3<f32>,\n}\n\n");

    let mut o = Out::new();
    let mut b = Binding::with_group(2);
    let s = spaces.declare_group(&mut b, &mut o);
    assert_eq!((s.spaces, s.tspaces.clone(), s.sspace), (0, vec![1, 2], 3));
    assert_eq!(
        o.as_str(),
        "@group(2) @binding(0) var<uniform> spaces: array<Space, 2>;\n\
         @group(2) @binding(1) var tspace_0: texture_3d<f32>;\n\
         @group(2) @binding(2) var tspace_1: texture_3d<f32>;\n\
         @group(2) @binding(3) var sspace: sampler;\n",
    );

    let mut o = Out::new();
    SpaceKind::Rgba.calc("space_a", 0, &mut o);
    SpaceKind::Gray.calc("space_b", 1, &mut o);
    assert_eq!(
        o.as_str(),
        "var space_a = textureSampleLevel(tspace_0, sspace, out.space_0, 0.);\n    \
         space = space_a.rgb * spaces[0].col;\n    \
         var space_b = textureSampleLevel(tspace_1, sspace, out.space_1, 0.);\n    \
         space = max(space, space_b.rrr * spaces[1].col);\n    ",
    );
    assert!(LightSpaces::empty().is_empty());
    assert_eq!(spaces.len(), 2);
}

#[test]
fn source_arrays_text() {
    let arrays = SourceArrays::new(Box::leak(
        vec![SourceArray::new(SourceKind::Glow, 4), SourceArray::new(SourceKind::Gloom, 1)].into_boxed_slice(),
    ));
    let mut o = Out::new();
    let mut b = Binding::with_group(3);
    let s = arrays.declare_group(&mut b, &mut o);
    assert_eq!(s.len(), 2);
    assert_eq!((s[0].binding_array, s[0].binding_len, s[0].size), (0, 1, 4));
    assert_eq!((s[1].binding_array, s[1].binding_len, s[1].size), (2, 3, 1));
    assert_eq!(
        o.as_str(),
        "@group(3) @binding(0) var<uniform> sources_array_0: array<Source, 4>;\n\
         @group(3) @binding(1) var<uniform> sources_len_0: Len;\n\
         @group(3) @binding(2) var<uniform> sources_array_1: array<Source, 1>;\n\
         @group(3) @binding(3) var<uniform> sources_len_1: Len;\n",
    );
    let mut o = Out::new();
    arrays.define_type(&mut o);
    assert_eq!(
        o.as_str(),
        "struct Source {\n    col: vec3<f32>,\n    rad: f32,\n    pos: vec3<f32>,\n}\n\n\
         struct Len {\n    n: u32,\n    pad0: u32,\n    pad1: u32,\n    pad2: u32,\n}\n\n",
    );
    let e = arrays.enumerate();
    assert_eq!(e.len(), 2);
    assert_eq!(e[1].0, 1);
    assert!(matches!(e[1].1.kind(), SourceKind::Gloom));
    assert_eq!(e[1].1.size(), 1);
}

#[test]
fn post_fragment_text() {
    let mut o = Out::new();
    Post { antialiasing: false }.calc_fragment(&mut o);
    assert_eq!(o.as_str(), "col = textureSample(tmap, smap, in.map);\n    ");
    let mut o = Out::new();
    Post { antialiasing: true }.calc_fragment(&mut o);
    assert!(o.as_str().ends_with(") * 0.25;\n    "));
    assert!(o.as_str().starts_with("let s0 = vec2(data.step.x, data.step.y);\n    "));
}
