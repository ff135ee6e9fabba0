//! The shader view: whether positions are transformed by a camera.

use vstd::prelude::*;

use crate::nodes::{struct_text, Binding, Field, Location, Name, Struct, Type, Var};
use crate::out::Out;
use vstd::view::View as _;

verus! {

/// The shader view.
#[derive(Clone, Copy, PartialEq, Eq, Structural)]
pub enum View {
    Absent,
    Camera,
}

/// The one field of the camera struct.
pub open spec fn camera_field() -> Field {
    Field { location: Location::Absent, name: Name::Str("view"), ty: Type::Simple("mat4x4<f32>") }
}

impl View {
    /// The type definitions the view needs.
    pub open spec fn type_text(self) -> Seq<char> {
        match self {
            View::Absent => Seq::empty(),
            View::Camera => struct_text("Camera"@, seq![camera_field()]),
        }
    }

    /// The camera variable declaration at the given binding.
    pub open spec fn camera_var(b: Binding) -> Var {
        Var { binding: b, uniform: true, name: Name::Str("camera"), ty: Type::Simple("Camera") }
    }

    /// The text of the view transformation of `world`.
    pub open spec fn view_text(self) -> Seq<char> {
        match self {
            View::Absent => "world"@,
            View::Camera => "camera.view * world"@,
        }
    }

    /// Writes the camera struct definition when there is a camera.
    pub fn define_type(self, o: &mut Out)
        ensures
            final(o)@ == old(o)@ + self.type_text(),
    {
        if let View::Camera = self {
            let mut fields = Vec::new();
            fields.push(
                Field { location: Location::Absent, name: Name::Str("view"), ty: Type::mat4() },
            );
            let s = Struct { name: "Camera", fields };
            assert(s.fields@ =~= seq![camera_field()]);
            s.write_to(o);
        }
    }

    /// Declares the camera variable when there is a camera and returns its binding.
    pub fn declare_group(self, binding: &mut Binding, o: &mut Out) -> (r: Option<u32>)
        requires
            self == View::Camera ==> old(binding).binding < u32::MAX,
        ensures
            match self {
                View::Absent => {
                    &&& r is None
                    &&& *final(binding) == *old(binding)
                    &&& final(o)@ == old(o)@
                },
                View::Camera => {
                    &&& r == Some(old(binding).binding)
                    &&& *final(binding) == (Binding { group: old(binding).group, binding: (old(binding).binding + 1) as u32 })
                    &&& final(o)@ == old(o)@ + View::camera_var(*old(binding)).text()
                },
            },
    {
        match self {
            View::Absent => None,
            View::Camera => {
                let b = binding.next();
                let var = Var {
                    binding: b,
                    uniform: true,
                    name: Name::Str("camera"),
                    ty: Type::Simple("Camera"),
                };
                var.write_to(o);
                Some(b.get())
            },
        }
    }

    /// Writes the view transformation of `world`.
    pub fn calc_view(self, o: &mut Out)
        ensures
            final(o)@ == old(o)@ + self.view_text(),
    {
        o.write_str(
            match self {
                View::Absent => "world",
                View::Camera => "camera.view * world",
            },
        );
    }
}

} // verus!
