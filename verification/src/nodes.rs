//! The building blocks of generated WGSL source: struct fields, bindings, variables.

use vstd::prelude::*;

use crate::out::{dec, Out};

verus! {

/// The `@location` attribute of a struct field.
#[derive(Clone, Copy, PartialEq, Eq, Structural)]
pub enum Location {
    Absent,
    Num(u8),
    Position,
}

impl Location {
    /// The text of the attribute, followed by a space when there is one.
    pub open spec fn text(self) -> Seq<char> {
        match self {
            Location::Absent => Seq::empty(),
            Location::Num(n) => "@location("@ + dec(n as nat) + ") "@,
            Location::Position => "@builtin(position) "@,
        }
    }

    /// Whether `next` can be called without overflow.
    pub open spec fn can_advance(self) -> bool {
        match self {
            Location::Num(n) => n < 255,
            _ => true,
        }
    }

    /// The location after `next`.
    pub open spec fn advanced(self) -> Location {
        match self {
            Location::Num(n) => Location::Num((n + 1) as u8),
            other => other,
        }
    }

    /// The location after `k` calls of `next`.
    pub open spec fn advanced_by(self, k: nat) -> Location {
        match self {
            Location::Num(n) => Location::Num((n + k) as u8),
            other => other,
        }
    }

    /// Whether `k` calls of `next` can be made without overflow.
    pub open spec fn can_advance_by(self, k: nat) -> bool {
        match self {
            Location::Num(n) => n + k <= 255,
            _ => true,
        }
    }

    /// The first location of a struct.
    pub fn new() -> (l: Self)
        ensures
            l == Location::Num(0),
    {
        Location::Num(0)
    }

    /// Returns the current location and moves to the next one.
    pub fn next(&mut self) -> (l: Self)
        requires
            old(self).can_advance(),
        ensures
            l == *old(self),
            *final(self) == old(self).advanced(),
    {
        let old = *self;
        if let Location::Num(n) = self {
            *n = *n + 1;
        }
        old
    }

    /// Writes the attribute text.
    pub fn write_to(&self, o: &mut Out)
        ensures
            final(o)@ == old(o)@ + self.text(),
    {
        match self {
            Location::Absent => {},
            Location::Num(n) => {
                o.write_str("@location(").write(*n as u32).write_str(") ");
            },
            Location::Position => {
                o.write_str("@builtin(position) ");
            },
        }
    }
}

/// A binding number within a bind group.
#[derive(Clone, Copy, PartialEq, Eq, Structural)]
pub struct Binding {
    pub group: u32,
    pub binding: u32,
}

impl Binding {
    /// The first binding of a group.
    pub fn with_group(group: u32) -> (b: Self)
        ensures
            b == (Binding { group, binding: 0 }),
    {
        Binding { group, binding: 0 }
    }

    /// Returns the current binding and moves to the next one.
    pub fn next(&mut self) -> (b: Self)
        requires
            old(self).binding < u32::MAX,
        ensures
            b == *old(self),
            *final(self) == (Binding { group: old(self).group, binding: (old(self).binding + 1) as u32 }),
    {
        let old = *self;
        self.binding = self.binding + 1;
        old
    }

    /// The binding number.
    pub fn get(self) -> (n: u32)
        ensures
            n == self.binding,
    {
        self.binding
    }

    /// The bind group number.
    pub fn group(self) -> (n: u32)
        ensures
            n == self.group,
    {
        self.group
    }
}

/// A name, possibly numbered.
#[derive(Clone, Copy)]
pub enum Name {
    Str(&'static str),
    Num { str: &'static str, n: u32 },
}

impl Name {
    pub open spec fn text(self) -> Seq<char> {
        match self {
            Name::Str(s) => s@,
            Name::Num { str, n } => str@ + "_"@ + dec(n as nat),
        }
    }

    /// Writes the name.
    pub fn write_to(&self, o: &mut Out)
        ensures
            final(o)@ == old(o)@ + self.text(),
    {
        match self {
            Name::Str(s) => {
                o.write_str(s);
            },
            Name::Num { str, n } => {
                o.write_str(str).write_str("_").write(*n);
            },
        }
    }
}

/// A WGSL type.
#[derive(Clone, Copy)]
pub enum Type {
    Simple(&'static str),
    Array { ty: &'static str, size: u8 },
}

impl Type {
    pub open spec fn text(self) -> Seq<char> {
        match self {
            Type::Simple(ty) => ty@,
            Type::Array { ty, size } => "array<"@ + ty@ + ", "@ + dec(size as nat) + ">"@,
        }
    }

    pub fn float32() -> (t: Self)
        ensures
            t == Type::Simple("f32"),
    {
        Type::Simple("f32")
    }

    pub fn uint32() -> (t: Self)
        ensures
            t == Type::Simple("u32"),
    {
        Type::Simple("u32")
    }

    pub fn vec2() -> (t: Self)
        ensures
            t == Type::Simple("vec2<f32>"),
    {
        Type::Simple("vec2<f32>")
    }

    pub fn vec3() -> (t: Self)
        ensures
            t == Type::Simple("vec3<f32>"),
    {
        Type::Simple("vec3<f32>")
    }

    pub fn vec4() -> (t: Self)
        ensures
            t == Type::Simple("vec4<f32>"),
    {
        Type::Simple("vec4<f32>")
    }

    pub fn mat4() -> (t: Self)
        ensures
            t == Type::Simple("mat4x4<f32>"),
    {
        Type::Simple("mat4x4<f32>")
    }

    pub fn texture2d() -> (t: Self)
        ensures
            t == Type::Simple("texture_2d<f32>"),
    {
        Type::Simple("texture_2d<f32>")
    }

    pub fn texture3d() -> (t: Self)
        ensures
            t == Type::Simple("texture_3d<f32>"),
    {
        Type::Simple("texture_3d<f32>")
    }

    pub fn sampler() -> (t: Self)
        ensures
            t == Type::Simple("sampler"),
    {
        Type::Simple("sampler")
    }

    /// Writes the type.
    pub fn write_to(&self, o: &mut Out)
        ensures
            final(o)@ == old(o)@ + self.text(),
    {
        match self {
            Type::Simple(ty) => {
                o.write_str(ty);
            },
            Type::Array { ty, size } => {
                o.write_str("array<").write_str(ty).write_str(", ").write(*size as u32).write_str(
                    ">",
                );
            },
        }
    }
}

/// A struct field.
#[derive(Clone, Copy)]
pub struct Field {
    pub location: Location,
    pub name: Name,
    pub ty: Type,
}

impl Field {
    pub open spec fn text(self) -> Seq<char> {
        "    "@ + self.location.text() + self.name.text() + ": "@ + self.ty.text() + ","@
    }

    /// Writes the field line, without the line break.
    pub fn write_to(&self, o: &mut Out)
        ensures
            final(o)@ == old(o)@ + self.text(),
    {
        o.write_str("    ");
        self.location.write_to(o);
        self.name.write_to(o);
        o.write_str(": ");
        self.ty.write_to(o);
        o.write_str(",");
    }
}

/// The lines of the fields, each ended by a line break.
pub open spec fn fields_text(fields: Seq<Field>) -> Seq<char>
    decreases fields.len(),
{
    if fields.len() == 0 {
        Seq::empty()
    } else {
        fields_text(fields.drop_last()) + fields.last().text() + "\n"@
    }
}

/// The text of a struct definition.
pub open spec fn struct_text(name: Seq<char>, fields: Seq<Field>) -> Seq<char> {
    "struct "@ + name + " {\n"@ + fields_text(fields) + "}\n"@ + "\n"@
}

/// A struct definition.
pub struct Struct {
    pub name: &'static str,
    pub fields: Vec<Field>,
}

impl Struct {
    pub open spec fn text(&self) -> Seq<char> {
        struct_text(self.name@, self.fields@)
    }

    /// Writes the struct definition.
    pub fn write_to(&self, o: &mut Out)
        ensures
            final(o)@ == old(o)@ + self.text(),
    {
        o.write_str("struct ").write_str(self.name).write_str(" {\n");
        let ghost start = o@;
        let mut i: usize = 0;
        while i < self.fields.len()
            invariant
                i <= self.fields@.len(),
                o@ == start + fields_text(self.fields@.take(i as int)),
            decreases self.fields@.len() - i,
        {
            assert(self.fields@.take(i + 1).drop_last() =~= self.fields@.take(i as int));
            self.fields[i].write_to(o);
            o.write_str("\n");
            i = i + 1;
        }
        assert(self.fields@.take(i as int) =~= self.fields@);
        o.write_str("}\n").write_str("\n");
    }
}

/// A global variable declaration.
#[derive(Clone, Copy)]
pub struct Var {
    pub binding: Binding,
    pub uniform: bool,
    pub name: Name,
    pub ty: Type,
}

impl Var {
    pub open spec fn text(self) -> Seq<char> {
        "@group("@ + dec(self.binding.group as nat) + ") @binding("@ + dec(self.binding.binding as nat) + ") var"@ + (if self.uniform {
            "<uniform>"@
        } else {
            Seq::empty()
        }) + " "@ + self.name.text() + ": "@ + self.ty.text() + ";\n"@
    }

    /// Writes the declaration line.
    pub fn write_to(&self, o: &mut Out)
        ensures
            final(o)@ == old(o)@ + self.text(),
    {
        o.write_str("@group(").write(self.binding.group()).write_str(") @binding(").write(
            self.binding.get(),
        ).write_str(") var");
        if self.uniform {
            o.write_str("<uniform>");
        }
        o.write_str(" ");
        self.name.write_to(o);
        o.write_str(": ");
        self.ty.write_to(o);
        o.write_str(";\n");
    }
}

} // verus!
