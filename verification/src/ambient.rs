//! The ambient light uniform.

use vstd::prelude::*;

use crate::nodes::{Binding, Name, Type, Var};
use crate::out::Out;

verus! {

/// The ambient light uniform.
pub struct Ambient;

impl Ambient {
    /// The ambient variable declaration at the given binding.
    pub open spec fn var(b: Binding) -> Var {
        Var { binding: b, uniform: true, name: Name::Str("ambient"), ty: Type::Simple("vec4<f32>") }
    }

    /// Declares the ambient variable and returns its binding.
    pub fn declare_group(binding: &mut Binding, o: &mut Out) -> (r: u32)
        requires
            old(binding).binding < u32::MAX,
        ensures
            r == old(binding).binding,
            *final(binding) == (Binding { group: old(binding).group, binding: (old(binding).binding + 1) as u32 }),
            final(o)@ == old(o)@ + Ambient::var(*old(binding)).text(),
    {
        let b = binding.next();
        let var = Var { binding: b, uniform: true, name: Name::Str("ambient"), ty: Type::vec4() };
        var.write_to(o);
        b.get()
    }
}

} // verus!
