//! The shader component: a handle to a backend-owned program.
//!
//! The renderer owns the compiled program; an entity only references it by
//! handle, set at most once through `attach_component`. Reading the handle
//! before one was attached is a programming error and is ruled out by
//! precondition.
use vstd::prelude::*;

use crate::component::Component;
use crate::fixed::Fixed;

verus! {

/// A renderer-owned program referenced by handle.
#[derive(Clone, Copy, Debug, PartialEq, Eq)]
pub struct Shader {
    pub program: Option<u32>,
}

impl Shader {
    /// The attached program handle; attach one first.
    pub fn get_program(&self) -> (r: u32)
        requires
            self.program is Some,
        ensures
            self.program == Some(r),
    {
        match self.program {
            Some(p) => p,
            None => unreached(),
        }
    }
}

impl Default for Shader {
    /// No program attached yet.
    fn default() -> (s: Shader)
        ensures
            s == (Shader { program: None }),
    {
        Shader { program: None }
    }
}

impl From<u32> for Shader {
    /// A shader referencing the given program handle.
    fn from(program: u32) -> (s: Shader) {
        Shader { program: Some(program) }
    }
}

impl vstd::std_specs::convert::FromSpecImpl<u32> for Shader {
    open spec fn obeys_from_spec() -> bool {
        true
    }

    open spec fn from_spec(program: u32) -> Shader {
        Shader { program: Some(program) }
    }
}

impl Component for Shader {
    /// A shader has no per-frame state: the tick changes nothing.
    open spec fn spec_updated(pre: Shader, dt: Fixed, post: Shader) -> bool {
        post == pre
    }

    fn update(&mut self, dt: Fixed) {
    }
}

} // verus!
