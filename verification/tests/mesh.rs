use dunge::mesh::{Error, MeshData};

#[test]
fn from_quads() {
    let verts = [[0, 1, 2, 3], [4, 5, 6, 7]];
    let data = MeshData::from_quads(&verts).expect("mesh data");
    let indxs = data.indices().expect("indices");
    let v = data.verts();
    assert_eq!(v.len(), 8);
    assert_eq!(indxs.len(), 4);
    assert_eq!([v[0], v[1], v[2]], indxs[0]);
    assert_eq!([v[0], v[2], v[3]], indxs[1]);
    assert_eq!([v[4], v[5], v[6]], indxs[2]);
    assert_eq!([v[4], v[6], v[7]], indxs[3]);
}

#[test]
fn new_rejects_an_index_out_of_range() {
    let verts = [1u8, 2, 3];
    let faces = [[0, 1, 2], [0, 2, 3]];
    match MeshData::new(&verts, &faces) {
        Err(Error::InvalidIndex { index }) => assert_eq!(index, 3),
        _ => panic!("expected an invalid index"),
    }
}

#[test]
fn new_keeps_valid_faces() {
    let verts = [1u8, 2, 3];
    let faces = [[0, 1, 2], [2, 1, 0]];
    let data = MeshData::new(&verts, &faces).expect("mesh data");
    assert_eq!(data.verts(), &verts[..]);
    assert_eq!(data.indices().expect("indices"), &faces[..]);
}

#[test]
fn from_verts_has_no_indices() {
    let verts = [7u16, 8, 9];
    let data = MeshData::from_verts(&verts);
    assert_eq!(data.verts(), &verts[..]);
    assert!(data.indices().is_none());
    assert!(data.index_bytes().is_none());
}

#[test]
fn index_bytes_are_twelve_per_face() {
    let verts = [[0u8, 1, 2, 3]];
    let data = MeshData::from_quads(&verts).expect("mesh data");
    let bytes = data.index_bytes().expect("bytes");
    assert_eq!(bytes.len(), 24);
    let expected: Vec<u8> = [0u32, 1, 2, 0, 2, 3].iter().flat_map(|i| i.to_ne_bytes()).collect();
    assert_eq!(bytes, expected);
}
