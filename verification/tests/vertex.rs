use dunge::vertex::{impl_vertex, is_repr_c, AttrDesc, DeriveDesc, FieldDesc, Kind, Site, VertexError};

fn path(name: &str) -> AttrDesc {
    AttrDesc { path: Some(name.to_string()), is_path: true, nested: None }
}

fn repr(nested: &[&str]) -> AttrDesc {
    AttrDesc {
        path: Some("repr".to_string()),
        is_path: false,
        nested: Some(nested.iter().map(|n| Some(n.to_string())).collect()),
    }
}

fn field(name: Option<&str>, attrs: Vec<AttrDesc>, ty: &str) -> FieldDesc {
    FieldDesc { ident: name.map(str::to_string), attrs, ty: ty.to_string() }
}

fn vert(fields: Vec<FieldDesc>) -> DeriveDesc {
    DeriveDesc { is_struct: true, fields, has_generics: false, attrs: vec![repr(&["C"])] }
}

#[test]
fn repr_c_is_recognized() {
    assert!(is_repr_c(&repr(&["C"])));
    assert!(is_repr_c(&repr(&[])));
    assert!(!is_repr_c(&repr(&["C", "u8"])));
    assert!(!is_repr_c(&repr(&["transparent"])));
    assert!(!is_repr_c(&AttrDesc { path: Some("repr".to_string()), is_path: false, nested: None }));
    assert!(!is_repr_c(&AttrDesc { path: Some("derive".to_string()), is_path: false, nested: Some(vec![Some("C".to_string())]) }));
}

#[test]
fn the_first_vertex_attribute_gives_the_kind() {
    let f = field(Some("pos"), vec![path("doc"), path("color"), path("position")], "Vec3");
    assert_eq!(Kind::from_field(&f), Some(Kind::Color));
    let f = field(Some("pos"), vec![AttrDesc { path: Some("position".to_string()), is_path: false, nested: Some(vec![]) }], "Vec3");
    assert_eq!(Kind::from_field(&f), None);
    assert_eq!(Kind::TextureMap.as_attr(), "texture_map");
    assert_eq!(Kind::TextureMap.into_ident(), "TextureMap");
    assert_eq!(Kind::Position.into_ident(), "Position");
}

#[test]
fn a_valid_vertex_gives_one_code_per_field() {
    let d = vert(vec![
        field(Some("pos"), vec![path("position")], "Vec2"),
        field(Some("col"), vec![path("color")], "Vec3"),
    ]);
    let v = impl_vertex(&d).ok().expect("fields");
    assert_eq!(v.len(), 2);
    let a = v[0].as_ref().ok().expect("pos");
    assert_eq!(a.kind, Kind::Position);
    assert_eq!(a.message, "wrong vertex attribute `#[position]` for `Vec2` type");
    let b = v[1].as_ref().ok().expect("col");
    assert_eq!(b.kind, Kind::Color);
    assert_eq!(b.message, "wrong vertex attribute `#[color]` for `Vec3` type");
}

#[test]
fn field_errors_stand_in_place_of_their_fields() {
    let d = vert(vec![
        field(None, vec![path("position")], "Vec2"),
        field(None, vec![], "Vec3"),
        field(Some("again"), vec![path("position")], "Vec2"),
    ]);
    let v = impl_vertex(&d).ok().expect("fields");
    assert!(v[0].is_ok());
    assert_eq!(v[1].as_ref().err().expect("no attribute"), "the `1` field must be specified by some vertex attribute");
    assert_eq!(v[2].as_ref().err().expect("second position"), "fields must have only one `#[position]` attribute");
}

#[test]
fn whole_input_errors() {
    let mut d = vert(vec![field(Some("pos"), vec![path("position")], "Vec2")]);
    d.is_struct = false;
    assert_eq!(impl_vertex(&d).err(), Some(VertexError::NotStruct));
    let d = vert(vec![]);
    assert_eq!(impl_vertex(&d).err(), Some(VertexError::NoFields));
    let mut d = vert(vec![field(Some("pos"), vec![path("position")], "Vec2")]);
    d.has_generics = true;
    assert_eq!(impl_vertex(&d).err(), Some(VertexError::Generics));
    let mut d = vert(vec![field(Some("pos"), vec![path("position")], "Vec2")]);
    d.attrs = vec![repr(&["packed"])];
    assert_eq!(impl_vertex(&d).err(), Some(VertexError::NotReprC));
    let d = vert(vec![field(Some("col"), vec![path("color")], "Vec3"), field(Some("x"), vec![], "f32")]);
    assert_eq!(impl_vertex(&d).err(), Some(VertexError::NoPosition));
}

#[test]
fn error_messages_and_sites() {
    assert_eq!(VertexError::NotStruct.message(), "the vertex type must be a struct");
    assert_eq!(VertexError::NoFields.message(), "the vertex struct must have some fields");
    assert_eq!(VertexError::Generics.message(), "the vertex struct cannot have generic parameters");
    assert_eq!(VertexError::NotReprC.message(), "the vertex struct must have the `#[repr(C)]` attribute");
    assert_eq!(VertexError::NoPosition.message(), "some field must have the `#[position]` attribute");
    assert_eq!(VertexError::NotStruct.site(), Site::TypeName);
    assert_eq!(VertexError::NoPosition.site(), Site::Fields);
    assert_eq!(VertexError::Generics.site(), Site::Generics);
}
