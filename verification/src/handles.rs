//! Handles for context's objects management.

use vstd::prelude::*;

use std::marker::PhantomData;

verus! {

/// A handle of a lights object of the shader `S`.
pub struct LightsHandle<S>(u32, PhantomData<S>);

impl<S> LightsHandle<S> {
    pub closed spec fn spec_id(self) -> u32 {
        self.0
    }

    /// A handle with the given id.
    pub fn new(id: u32) -> (h: Self)
        ensures
            h.spec_id() == id,
    {
        LightsHandle(id, PhantomData)
    }

    /// The id.
    pub fn id(self) -> (n: u32)
        ensures
            n == self.spec_id(),
    {
        self.0
    }
}

/// A handle of a light spaces object of the shader `S`.
pub struct SpacesHandle<S>(u32, PhantomData<S>);

impl<S> SpacesHandle<S> {
    pub closed spec fn spec_id(self) -> u32 {
        self.0
    }

    /// A handle with the given id.
    pub fn new(id: u32) -> (h: Self)
        ensures
            h.spec_id() == id,
    {
        SpacesHandle(id, PhantomData)
    }

    /// The id.
    pub fn id(self) -> (n: u32)
        ensures
            n == self.spec_id(),
    {
        self.0
    }
}

} // verus!
