//! The component protocol.
//!
//! A component is per-entity internal state with a per-frame `update` tick.
//! An entity that owns components implements `HasComponents` to tick them
//! all, and `HasComponent<T>` to expose a typed slot: `attach_component`
//! fills it, `get_component` reads it, and a missing component is reported
//! as an error for the caller to treat as fatal.
use vstd::prelude::*;

use crate::fixed::Fixed;

verus! {

/// Per-entity internal state with a per-frame tick.
pub trait Component: Sized {
    /// Relates the component state before and after one tick.
    spec fn spec_updated(pre: Self, dt: Fixed, post: Self) -> bool;

    fn update(&mut self, dt: Fixed)
        ensures
            Self::spec_updated(*old(self), dt, *final(self)),
    ;
}

/// An entity whose components tick once per frame, before its controllers.
pub trait HasComponents: Sized {
    /// Relates the entity state before and after one component tick.
    spec fn spec_components_updated(pre: Self, dt: Fixed, post: Self) -> bool;

    fn update_components(&mut self, dt: Fixed)
        ensures
            Self::spec_components_updated(*old(self), dt, *final(self)),
    ;
}

/// A typed component slot on an entity.
pub trait HasComponent<T: Component>: HasComponents {
    /// The component held, if one is attached.
    spec fn spec_component(&self) -> Option<T>;

    /// The entity with the slot replaced and all else unchanged.
    spec fn spec_with_component(self, component: T) -> Self;

    /// Replacing the slot stores exactly the given component.
    proof fn lemma_with_component(self, component: T)
        ensures
            self.spec_with_component(component).spec_component() == Some(component),
    ;

    fn attach_component(&mut self, component: T)
        ensures
            *final(self) == old(self).spec_with_component(component),
    ;

    fn get_component(&self) -> (r: Result<&T, &'static str>)
        ensures
            match r {
                Ok(c) => self.spec_component() == Some(*c),
                Err(_) => self.spec_component() is None,
            },
    ;

    fn get_component_mut(&mut self) -> (r: Result<&mut T, &'static str>)
        ensures
            match r {
                Ok(c) => old(self).spec_component() == Some(*c) && *final(self) == old(
                    self,
                ).spec_with_component(*final(c)),
                Err(_) => old(self).spec_component() is None && *final(self) == *old(self),
            },
    ;
}

} // verus!
