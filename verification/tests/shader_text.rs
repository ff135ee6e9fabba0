use dunge::spaces::LightSpaces;
use dunge::textures::TexturesNumber;
use dunge::ambient::Ambient;
use dunge::nodes::{Binding, Field, Location, Name, Struct, Type, Var};
use dunge::out::Out;
use dunge::view::View;

#[test]
fn out_writes_numbers_and_text() {
    let mut o = Out::new();
    o.write_str("a").write(0).write_str("-").write(1234567890).write_u64(u64::MAX);
    assert_eq!(o.as_str(), "a0-123456789018446744073709551615");
}

#[test]
fn separated_puts_the_separator_between_items() {
    let mut o = Out::new();
    let mut s = o.separated(", ");
    s.out(&mut o).write_str("x");
    s.out(&mut o).write_str("y");
    s.write_default(&mut o, "none");
    assert_eq!(o.into_string(), "x, y");
}

#[test]
fn separated_writes_the_default_when_empty() {
    let mut o = Out::new();
    let mut s = o.separated(" * ");
    s.write_default(&mut o, "vec3(0.)");
    assert_eq!(o.as_str(), "vec3(0.)");
}

#[test]
fn locations_count_up_from_zero() {
    let mut l = Location::new();
    let mut o = Out::new();
    l.next().write_to(&mut o);
    l.next().write_to(&mut o);
    Location::Position.write_to(&mut o);
    Location::Absent.write_to(&mut o);
    assert_eq!(o.as_str(), "@location(0) @location(1) @builtin(position) ");
}

#[test]
fn bindings_count_up_within_a_group() {
    let mut b = Binding::with_group(2);
    let first = b.next();
    let second = b.next();
    assert_eq!((first.group(), first.get()), (2, 0));
    assert_eq!((second.group(), second.get()), (2, 1));
    assert_eq!(b.get(), 2);
}

#[test]
fn struct_definition_text() {
    let mut o = Out::new();
    let s = Struct {
        name: "VertexOutput",
        fields: vec![
            Field { location: Location::Position, name: Name::Str("pos"), ty: Type::vec4() },
            Field { location: Location::Num(0), name: Name::Num { str: "space", n: 1 }, ty: Type::vec3() },
        ],
    };
    s.write_to(&mut o);
    assert_eq!(
        o.as_str(),
        "struct VertexOutput {\n    @builtin(position) pos: vec4<f32>,\n    @location(0) space_1: vec3<f32>,\n}\n\n",
    );
}

#[test]
fn var_declaration_text() {
    let mut o = Out::new();
    let v = Var { binding: Binding::with_group(1), uniform: true, name: Name::Str("camera"), ty: Type::Simple("Camera") };
    v.write_to(&mut o);
    let t = Var { binding: Binding::with_group(0), uniform: false, name: Name::Num { str: "tmap", n: 3 }, ty: Type::texture2d() };
    t.write_to(&mut o);
    assert_eq!(
        o.as_str(),
        "@group(1) @binding(0) var<uniform> camera: Camera;\n@group(0) @binding(0) var tmap_3: texture_2d<f32>;\n",
    );
}

#[test]
fn array_type_text() {
    let mut o = Out::new();
    Type::Array { ty: "vec4<f32>", size: 4 }.write_to(&mut o);
    o.write_str(" ");
    Type::float32().write_to(&mut o);
    o.write_str(" ");
    Type::uint32().write_to(&mut o);
    o.write_str(" ");
    Type::mat4().write_to(&mut o);
    o.write_str(" ");
    Type::sampler().write_to(&mut o);
    assert_eq!(o.as_str(), "array<vec4<f32>, 4> f32 u32 mat4x4<f32> sampler");
}

#[test]
fn camera_view_declares_its_group() {
    let mut o = Out::new();
    let mut b = Binding::with_group(0);
    assert_eq!(View::Camera.declare_group(&mut b, &mut o), Some(0));
    assert_eq!(b.get(), 1);
    assert_eq!(o.as_str(), "@group(0) @binding(0) var<uniform> camera: Camera;\n");

    let mut o = Out::new();
    let mut b = Binding::with_group(0);
    assert_eq!(View::Absent.declare_group(&mut b, &mut o), None);
    assert_eq!(b.get(), 0);
    assert_eq!(o.as_str(), "");
}

#[test]
fn camera_view_text() {
    let mut o = Out::new();
    View::Camera.define_type(&mut o);
    View::Camera.calc_view(&mut o);
    o.write_str("|");
    View::Absent.calc_view(&mut o);
    assert_eq!(o.as_str(), "struct Camera {\n    view: mat4x4<f32>,\n}\n\ncamera.view * world|world");
}

#[test]
fn ambient_declares_one_binding() {
    let mut o = Out::new();
    let mut b = Binding::with_group(0);
    b.next();
    assert_eq!(Ambient::declare_group(&mut b, &mut o), 1);
    assert_eq!(b.get(), 2);
    assert_eq!(o.as_str(), "@group(0) @binding(1) var<uniform> ambient: vec4<f32>;\n");
}

#[test]
fn separated_lists_items_with_the_separator_between() {
    let mut o = Out::new();
    o.write_str("let x = ");
    let mut s = o.separated(" + ");
    for item in ["a", "b", "c"] {
        s.out(&mut o).write_str(item);
    }
    s.write_default(&mut o, "0");
    assert_eq!(o.as_str(), "let x = a + b + c");

    let mut o = Out::new();
    o.write_str("let x = ");
    let mut s = o.separated(" + ");
    s.write_default(&mut o, "0");
    assert_eq!(o.as_str(), "let x = 0");
}

#[test]
fn empty_groups_take_no_binding() {
    let mut o = Out::new();
    let mut b = Binding::with_group(0);
    for _ in 0..3 {
        b.next();
    }
    let before = b.get();
    assert!(LightSpaces::empty().declare_group(&mut b, &mut o).is_empty());
    assert_eq!(TexturesNumber::n0().declare_group(&mut b, &mut o).tmaps.len(), 0);
    assert_eq!(View::Absent.declare_group(&mut b, &mut o), None);
    assert_eq!(b.get(), before);
    assert_eq!(o.as_str(), "");
}
