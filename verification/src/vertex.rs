//! The checks of the vertex derive: a vertex type is a `#[repr(C)]` struct with
//! fields, no generic parameters, and exactly one `#[position]` field among fields
//! that each carry a vertex attribute. The derive's input is described here by
//! plain values: the attributes by their path and nested paths, the fields by their
//! name, attributes and type text.

use vstd::prelude::*;

use crate::out::{dec, Out};

verus! {

/// An attribute: its path when it is a single identifier, whether it is a bare
/// path (`#[name]`), and the paths nested in it (`#[name(a, b)]`) when its
/// arguments parse as a list of bare paths; each nested path is given when it is a
/// single identifier.
pub struct AttrDesc {
    pub path: Option<String>,
    pub is_path: bool,
    pub nested: Option<Vec<Option<String>>>,
}

/// A field of the struct: its name (`None` for a tuple struct), its attributes
/// and the text of its type.
pub struct FieldDesc {
    pub ident: Option<String>,
    pub attrs: Vec<AttrDesc>,
    pub ty: String,
}

/// The derive's input.
pub struct DeriveDesc {
    pub is_struct: bool,
    pub fields: Vec<FieldDesc>,
    pub has_generics: bool,
    pub attrs: Vec<AttrDesc>,
}

/// The vertex attribute of a field.
#[derive(Clone, Copy, Debug, PartialEq, Eq, Structural)]
pub enum Kind {
    Position,
    Color,
    TextureMap,
}

/// Where a whole-input error points.
#[derive(Clone, Copy, Debug, PartialEq, Eq, Structural)]
pub enum Site {
    TypeName,
    Fields,
    Generics,
}

/// An error of the whole input.
#[derive(Clone, Copy, Debug, PartialEq, Eq, Structural)]
pub enum VertexError {
    NotStruct,
    NoFields,
    Generics,
    NotReprC,
    NoPosition,
}

/// The code of a checked field: its attribute, and the message of the assertion
/// that checks its type's format.
pub struct FieldCode {
    pub kind: Kind,
    pub message: String,
}

/// Whether `s` is the identifier `name`.
pub open spec fn is_ident(s: Option<String>, name: Seq<char>) -> bool {
    match s {
        Some(p) => p@ == name,
        None => false,
    }
}

/// Whether all the nested paths are `C`.
pub open spec fn all_c(nested: Seq<Option<String>>) -> bool {
    forall|i: int| 0 <= i < nested.len() ==> #[trigger] is_ident(nested[i], "C"@)
}

/// Whether the attribute is `#[repr(C)]`: its path is `repr` and all the paths
/// nested in it are `C`.
pub open spec fn spec_is_repr_c(a: AttrDesc) -> bool {
    &&& is_ident(a.path, "repr"@)
    &&& match a.nested {
        Some(n) => all_c(n@),
        None => false,
    }
}

/// The vertex attribute an attribute names, if it is one.
pub open spec fn attr_kind(a: AttrDesc) -> Option<Kind> {
    if !a.is_path {
        None
    } else if is_ident(a.path, "position"@) {
        Some(Kind::Position)
    } else if is_ident(a.path, "color"@) {
        Some(Kind::Color)
    } else if is_ident(a.path, "texture_map"@) {
        Some(Kind::TextureMap)
    } else {
        None
    }
}

/// The vertex attribute of the first attribute that names one.
pub open spec fn first_kind(attrs: Seq<AttrDesc>) -> Option<Kind>
    decreases attrs.len(),
{
    if attrs.len() == 0 {
        None
    } else {
        match attr_kind(attrs[0]) {
            Some(k) => Some(k),
            None => first_kind(attrs.drop_first()),
        }
    }
}

/// The identifier of the kind in the generated code.
pub open spec fn kind_ident(k: Kind) -> Seq<char> {
    match k {
        Kind::Position => "Position"@,
        Kind::Color => "Color"@,
        Kind::TextureMap => "TextureMap"@,
    }
}

/// The attribute that gives the kind.
pub open spec fn kind_attr(k: Kind) -> Seq<char> {
    match k {
        Kind::Position => "position"@,
        Kind::Color => "color"@,
        Kind::TextureMap => "texture_map"@,
    }
}

/// The name of the field numbered `n` in messages.
pub open spec fn field_name(f: FieldDesc, n: nat) -> Seq<char> {
    match f.ident {
        Some(i) => i@,
        None => dec(n),
    }
}

/// The message for a field without a vertex attribute.
pub open spec fn no_attribute_message(f: FieldDesc, n: nat) -> Seq<char> {
    "the `"@ + field_name(f, n) + "` field must be specified by some vertex attribute"@
}

/// The message of the format check of a field.
pub open spec fn format_message(k: Kind, ty: Seq<char>) -> Seq<char> {
    "wrong vertex attribute `#["@ + kind_attr(k) + "]` for `"@ + ty + "` type"@
}

/// The message for a second `#[position]` field.
pub open spec fn extra_position_message() -> Seq<char> {
    "fields must have only one `#[position]` attribute"@
}

/// Whether one of the first `k` fields is a position.
pub open spec fn position_before(fields: Seq<FieldDesc>, k: int) -> bool {
    exists|j: int| 0 <= j < k && #[trigger] first_kind(fields[j].attrs@) == Some(Kind::Position)
}

/// The outcome of the field numbered `n`: its code, or the message of the error
/// that stands in its place.
pub open spec fn field_outcome(fields: Seq<FieldDesc>, n: int, r: Result<FieldCode, String>) -> bool {
    let f = fields[n];
    match first_kind(f.attrs@) {
        None => r matches Err(m) && m@ == no_attribute_message(f, n as nat),
        Some(k) => if k == Kind::Position && position_before(fields, n) {
            r matches Err(m) && m@ == extra_position_message()
        } else {
            r matches Ok(c) && c.kind == k && c.message@ == format_message(k, f.ty@)
        },
    }
}

impl VertexError {
    /// Where the error points.
    pub fn site(&self) -> (s: Site)
        ensures
            s == match *self {
                VertexError::NotStruct | VertexError::NotReprC => Site::TypeName,
                VertexError::NoFields | VertexError::NoPosition => Site::Fields,
                VertexError::Generics => Site::Generics,
            },
    {
        match self {
            VertexError::NotStruct | VertexError::NotReprC => Site::TypeName,
            VertexError::NoFields | VertexError::NoPosition => Site::Fields,
            VertexError::Generics => Site::Generics,
        }
    }

    /// The error message.
    pub fn message(&self) -> (s: &'static str)
        ensures
            s@ == match *self {
                VertexError::NotStruct => "the vertex type must be a struct"@,
                VertexError::NoFields => "the vertex struct must have some fields"@,
                VertexError::Generics => "the vertex struct cannot have generic parameters"@,
                VertexError::NotReprC => "the vertex struct must have the `#[repr(C)]` attribute"@,
                VertexError::NoPosition => "some field must have the `#[position]` attribute"@,
            },
    {
        proof {
            reveal_strlit("the vertex type must be a struct");
            reveal_strlit("the vertex struct must have some fields");
            reveal_strlit("the vertex struct cannot have generic parameters");
            reveal_strlit("the vertex struct must have the `#[repr(C)]` attribute");
            reveal_strlit("some field must have the `#[position]` attribute");
        }
        match self {
            VertexError::NotStruct => "the vertex type must be a struct",
            VertexError::NoFields => "the vertex struct must have some fields",
            VertexError::Generics => "the vertex struct cannot have generic parameters",
            VertexError::NotReprC => "the vertex struct must have the `#[repr(C)]` attribute",
            VertexError::NoPosition => "some field must have the `#[position]` attribute",
        }
    }
}

/// Whether `s` is the identifier `name`.
fn ident_is(s: &Option<String>, name: &str) -> (b: bool)
    ensures
        b == is_ident(*s, name@),
{
    match s {
        Some(p) => *p == String::from_str(name),
        None => false,
    }
}

/// Whether the attribute is `#[repr(C)]`.
pub fn is_repr_c(attr: &AttrDesc) -> (b: bool)
    ensures
        b == spec_is_repr_c(*attr),
{
    proof {
        reveal_strlit("repr");
        reveal_strlit("C");
    }
    if !ident_is(&attr.path, "repr") {
        return false;
    }
    match &attr.nested {
        None => false,
        Some(nested) => {
            let mut i: usize = 0;
            while i < nested.len()
                invariant
                    attr.nested == Some(*nested),
                    is_ident(attr.path, "repr"@),
                    i <= nested@.len(),
                    forall|j: int| 0 <= j < i ==> #[trigger] is_ident(nested@[j], "C"@),
                decreases nested@.len() - i,
            {
                if !ident_is(&nested[i], "C") {
                    assert(!is_ident(nested@[i as int], "C"@));
                    return false;
                }
                i = i + 1;
            }
            true
        },
    }
}

impl Kind {
    /// The vertex attribute of the first attribute of the field that names one.
    pub fn from_field(field: &FieldDesc) -> (k: Option<Kind>)
        ensures
            k == first_kind(field.attrs@),
    {
        proof {
            reveal_strlit("position");
            reveal_strlit("color");
            reveal_strlit("texture_map");
        }
        let attrs = &field.attrs;
        assert(attrs@.skip(0) =~= attrs@);
        let mut i: usize = 0;
        while i < attrs.len()
            invariant
                attrs@ == field.attrs@,
                i <= attrs@.len(),
                first_kind(attrs@) == first_kind(attrs@.skip(i as int)),
            decreases attrs@.len() - i,
        {
            let a = &attrs[i];
            assert(attrs@.skip(i as int).len() > 0);
            assert(attrs@.skip(i as int)[0] == attrs@[i as int]);
            assert(attrs@.skip(i as int).drop_first() =~= attrs@.skip(i + 1));
            if a.is_path {
                if ident_is(&a.path, "position") {
                    return Some(Kind::Position);
                }
                if ident_is(&a.path, "color") {
                    return Some(Kind::Color);
                }
                if ident_is(&a.path, "texture_map") {
                    return Some(Kind::TextureMap);
                }
            }
            i = i + 1;
        }
        None
    }

    /// The identifier of the kind in the generated code.
    pub fn into_ident(self) -> (s: &'static str)
        ensures
            s@ == kind_ident(self),
    {
        proof {
            reveal_strlit("Position");
            reveal_strlit("Color");
            reveal_strlit("TextureMap");
        }
        match self {
            Kind::Position => "Position",
            Kind::Color => "Color",
            Kind::TextureMap => "TextureMap",
        }
    }

    /// The attribute that gives the kind.
    pub fn as_attr(&self) -> (s: &'static str)
        ensures
            s@ == kind_attr(*self),
    {
        proof {
            reveal_strlit("position");
            reveal_strlit("color");
            reveal_strlit("texture_map");
        }
        match self {
            Kind::Position => "position",
            Kind::Color => "color",
            Kind::TextureMap => "texture_map",
        }
    }
}

/// Checks the derive's input. An error of the whole input comes first, in this
/// order: not a struct, no fields, generic parameters, no `#[repr(C)]`, and, once
/// the fields are gone through, no `#[position]` field. Otherwise each field
/// gives its code, or the message of its own error: no vertex attribute, or a
/// second `#[position]`.
pub fn impl_vertex(derive: &DeriveDesc) -> (r: Result<Vec<Result<FieldCode, String>>, VertexError>)
    requires
        derive.fields@.len() < i32::MAX,
    ensures
        !derive.is_struct ==> r == Err::<Vec<Result<FieldCode, String>>, VertexError>(VertexError::NotStruct),
        derive.is_struct && derive.fields@.len() == 0 ==> r == Err::<Vec<Result<FieldCode, String>>, VertexError>(
            VertexError::NoFields,
        ),
        derive.is_struct && derive.fields@.len() > 0 && derive.has_generics ==> r == Err::<
            Vec<Result<FieldCode, String>>,
            VertexError,
        >(VertexError::Generics),
        derive.is_struct && derive.fields@.len() > 0 && !derive.has_generics && !(exists|i: int|
            0 <= i < derive.attrs@.len() && #[trigger] spec_is_repr_c(derive.attrs@[i])) ==> r == Err::<
            Vec<Result<FieldCode, String>>,
            VertexError,
        >(VertexError::NotReprC),
        derive.is_struct && derive.fields@.len() > 0 && !derive.has_generics && (exists|i: int|
            0 <= i < derive.attrs@.len() && #[trigger] spec_is_repr_c(derive.attrs@[i])) ==> {
            &&& !position_before(derive.fields@, derive.fields@.len() as int) ==> r == Err::<
                Vec<Result<FieldCode, String>>,
                VertexError,
            >(VertexError::NoPosition)
            &&& position_before(derive.fields@, derive.fields@.len() as int) ==> (r matches Ok(v) && v@.len()
                == derive.fields@.len() && forall|n: int|
                0 <= n < v@.len() ==> #[trigger] field_outcome(derive.fields@, n, v@[n]))
        },
{
    if !derive.is_struct {
        return Err(VertexError::NotStruct);
    }
    let fields = &derive.fields;
    if fields.len() == 0 {
        return Err(VertexError::NoFields);
    }
    if derive.has_generics {
        return Err(VertexError::Generics);
    }
    let mut repr_c = false;
    let mut i: usize = 0;
    while i < derive.attrs.len()
        invariant
            i <= derive.attrs@.len(),
            repr_c == (exists|j: int| 0 <= j < i && #[trigger] spec_is_repr_c(derive.attrs@[j])),
        decreases derive.attrs@.len() - i,
    {
        if is_repr_c(&derive.attrs[i]) {
            repr_c = true;
        }
        i = i + 1;
    }
    if !repr_c {
        return Err(VertexError::NotReprC);
    }
    let mut has_position = false;
    let mut out: Vec<Result<FieldCode, String>> = Vec::new();
    let mut n: usize = 0;
    while n < fields.len()
        invariant
            n <= fields@.len(),
            fields@.len() < i32::MAX,
            out@.len() == n,
            has_position == position_before(fields@, n as int),
            forall|m: int| 0 <= m < n ==> #[trigger] field_outcome(fields@, m, out@[m]),
        decreases fields@.len() - n,
    {
        let field = &fields[n];
        let ghost before = out@;
        let kind = Kind::from_field(field);
        match kind {
            None => {
                let mut o = Out::new();
                o.write_str("the `");
                match &field.ident {
                    Some(ident) => {
                        o.write_str(ident.as_str());
                    },
                    None => {
                        o.write(n as u32);
                    },
                }
                o.write_str("` field must be specified by some vertex attribute");
                out.push(Err(o.into_string()));
            },
            Some(k) => {
                if k == Kind::Position && has_position {
                    out.push(Err(String::from_str("fields must have only one `#[position]` attribute")));
                } else {
                    let mut o = Out::new();
                    o.write_str("wrong vertex attribute `#[").write_str(k.as_attr()).write_str(
                        "]` for `",
                    ).write_str(field.ty.as_str()).write_str("` type");
                    out.push(Ok(FieldCode { kind: k, message: o.into_string() }));
                }
            },
        }
        proof {
            reveal_strlit("the `");
            reveal_strlit("` field must be specified by some vertex attribute");
            reveal_strlit("fields must have only one `#[position]` attribute");
            reveal_strlit("wrong vertex attribute `#[");
            reveal_strlit("]` for `");
            reveal_strlit("` type");
            assert forall|m: int| 0 <= m < n + 1 implies #[trigger] field_outcome(fields@, m, out@[m]) by {
                if m < n {
                    assert(out@[m] == before[m]);
                }
            }
            if first_kind(fields@[n as int].attrs@) == Some(Kind::Position) {
                assert(position_before(fields@, n + 1));
            }
            if position_before(fields@, n + 1) && !position_before(fields@, n as int) {
                let j = choose|j: int| 0 <= j < n + 1 && #[trigger] first_kind(fields@[j].attrs@) == Some(Kind::Position);
                assert(j == n);
            }
        }
        match kind {
            Some(Kind::Position) => {
                has_position = true;
            },
            _ => {},
        }
        n = n + 1;
    }
    if !has_position {
        return Err(VertexError::NoPosition);
    }
    Ok(out)
}

/// Whether the outcome is the code of a position field.
pub open spec fn is_position_code(r: Result<FieldCode, String>) -> bool {
    r matches Ok(c) && c.kind == Kind::Position
}

/// The code of an accepted vertex type holds exactly one position: the first
/// field marked `#[position]` gives the position, and any later one an error.
pub proof fn lemma_one_position(fields: Seq<FieldDesc>, v: Seq<Result<FieldCode, String>>)
    requires
        v.len() == fields.len(),
        forall|n: int| 0 <= n < v.len() ==> #[trigger] field_outcome(fields, n, v[n]),
        position_before(fields, fields.len() as int),
    ensures
        exists|i: int| 0 <= i < v.len() && #[trigger] is_position_code(v[i]),
        forall|i: int, j: int|
            0 <= i < v.len() && 0 <= j < v.len() && #[trigger] is_position_code(v[i])
                && #[trigger] is_position_code(v[j]) ==> i == j,
{
    let w = choose|j: int| 0 <= j < fields.len() && #[trigger] first_kind(fields[j].attrs@) == Some(Kind::Position);
    let first = first_position(fields, w);
    assert(field_outcome(fields, first, v[first]));
    assert(!position_before(fields, first));
    assert(is_position_code(v[first]));
    assert forall|i: int, j: int|
        0 <= i < v.len() && 0 <= j < v.len() && #[trigger] is_position_code(v[i])
            && #[trigger] is_position_code(v[j]) implies i == j by {
        assert(field_outcome(fields, i, v[i]));
        assert(field_outcome(fields, j, v[j]));
        if i < j {
            assert(first_kind(fields[i].attrs@) == Some(Kind::Position));
            assert(position_before(fields, j));
        } else if j < i {
            assert(first_kind(fields[j].attrs@) == Some(Kind::Position));
            assert(position_before(fields, i));
        }
    }
}

/// The first position field, at or before `w`.
proof fn first_position(fields: Seq<FieldDesc>, w: int) -> (f: int)
    requires
        0 <= w < fields.len(),
        first_kind(fields[w].attrs@) == Some(Kind::Position),
    ensures
        0 <= f <= w,
        first_kind(fields[f].attrs@) == Some(Kind::Position),
        !position_before(fields, f),
    decreases w,
{
    if position_before(fields, w) {
        let j = choose|j: int| 0 <= j < w && #[trigger] first_kind(fields[j].attrs@) == Some(Kind::Position);
        first_position(fields, j)
    } else {
        w
    }
}

/// An attribute names a vertex attribute kind exactly when it is a bare path whose
/// name is that kind's attribute: `#[position]` names the position, `#[color]` the
/// color and `#[texture_map]` the texture map.
pub proof fn lemma_attr_kind_named(a: AttrDesc, k: Kind)
    ensures
        attr_kind(a) == Some(k) <==> a.is_path && is_ident(a.path, kind_attr(k)),
{
    reveal_strlit("position");
    reveal_strlit("color");
    reveal_strlit("texture_map");
    assert("position"@.len() == 8 && "color"@.len() == 5 && "texture_map"@.len() == 11);
}

} // verus!
