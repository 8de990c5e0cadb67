//! The controller protocol.
//!
//! A controller is external behavior attached to an entity, run once per
//! frame after the entity's components, in attachment order, with that
//! frame's input snapshot. Controllers are stateless: each run is a pure
//! function of the parent's state, the frame time and the input. A zero
//! frame time is a programming error of the frame driver and is ruled out
//! by precondition throughout the update pipeline.
use vstd::prelude::*;

use crate::fixed::Fixed;
use crate::io::Input;

verus! {

/// An entity whose controllers run once per frame.
pub trait HasControllers: Sized {
    /// Relates the entity state before and after one controller pass.
    spec fn spec_controllers_updated(pre: Self, dt: Fixed, input: Input, post: Self) -> bool;

    fn update_controllers(&mut self, dt: Fixed, input: &Input)
        requires
            dt != 0,
        ensures
            Self::spec_controllers_updated(*old(self), dt, *input, *final(self)),
    ;
}

/// External per-frame behavior attached to an entity of type `P`.
pub trait Controller<P: HasControllers>: Sized {
    /// The parent state after this controller ran.
    spec fn spec_applied(self, parent: P, dt: Fixed, input: Input) -> P;

    fn update(&self, parent: &mut P, dt: Fixed, input: &Input)
        requires
            dt != 0,
        ensures
            *final(parent) == self.spec_applied(*old(parent), dt, *input),
    ;
}

/// A typed controller slot on an entity; attachment appends to the entity's
/// ordered controller list.
pub trait HasController<S: HasControllers, T: Controller<S>>: HasControllers {
    /// The first attached controller of this role, if any.
    spec fn spec_controller(&self) -> Option<T>;

    /// Relates the entity state before and after an attachment.
    spec fn spec_controller_attached(pre: Self, controller: T, post: Self) -> bool;

    fn attach_controller(&mut self, controller: T)
        ensures
            Self::spec_controller_attached(*old(self), controller, *final(self)),
    ;

    fn get_controller(&self) -> (r: &T)
        requires
            self.spec_controller() is Some,
        ensures
            self.spec_controller() == Some(*r),
    ;
}

} // verus!
