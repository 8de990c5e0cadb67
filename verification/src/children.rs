//! An ordered, owned container of child entities.
//!
//! Children keep strict insertion order: `push` appends, indexed access and
//! iteration see the sequence exactly as it was built, and nothing ever
//! reorders it. Owners drive per-frame updates over it in that order.
use vstd::prelude::*;

verus! {

broadcast use vstd::std_specs::slice::axiom_spec_slice_iter;

/// An insertion-ordered collection of owned children.
#[derive(Clone, Debug)]
pub struct Children<C> {
    vector: Vec<C>,
}

impl<C> View for Children<C> {
    type V = Seq<C>;

    closed spec fn view(&self) -> Seq<C> {
        self.vector@
    }
}

impl<C> Children<C> {
    /// An empty container.
    pub fn new() -> (r: Children<C>)
        ensures
            r@ == Seq::<C>::empty(),
    {
        Children { vector: Vec::new() }
    }

    /// A container holding one element.
    pub fn single(element: C) -> (r: Children<C>)
        ensures
            r@ =~= seq![element],
    {
        let mut vector: Vec<C> = Vec::new();
        vector.push(element);
        Children { vector }
    }

    /// Every child, in insertion order.
    pub fn get_all(&self) -> (r: &Vec<C>)
        ensures
            r@ == self@,
    {
        &self.vector
    }

    /// Appends a child at the end.
    pub fn push(&mut self, object: C)
        ensures
            final(self)@ == old(self)@.push(object),
    {
        self.vector.push(object);
    }

    /// The number of children.
    pub fn len(&self) -> (n: usize)
        ensures
            n == self@.len(),
    {
        self.vector.len()
    }

    /// The child at `index`; an index out of bounds is a programming error
    /// and is ruled out by the precondition.
    pub fn get(&self, index: usize) -> (r: &C)
        requires
            index < self@.len(),
        ensures
            *r == self@[index as int],
    {
        &self.vector[index]
    }

    /// Mutable access to the child at `index`.
    pub fn get_mut(&mut self, index: usize) -> (r: &mut C)
        requires
            index < old(self)@.len(),
        ensures
            *r == old(self)@[index as int],
            final(self)@ == old(self)@.update(index as int, *final(r)),
    {
        &mut self.vector[index]
    }

    /// An iterator over the children in insertion order.
    pub fn iter(&self) -> (it: core::slice::Iter<'_, C>)
        ensures
            vstd::std_specs::slice::into_iter_elts(it) == self@,
    {
        self.vector.as_slice().iter()
    }
}

impl<C: crate::component::HasComponents> crate::component::Component for Children<C> {
    /// The tick updates every child's components, in insertion order.
    open spec fn spec_updated(
        pre: Children<C>,
        dt: crate::fixed::Fixed,
        post: Children<C>,
    ) -> bool {
        &&& post@.len() == pre@.len()
        &&& forall|i: int|
            0 <= i < pre@.len() ==> C::spec_components_updated(pre@[i], dt, #[trigger] post@[i])
    }

    fn update(&mut self, dt: crate::fixed::Fixed) {
        let ghost pre = *self;
        let n = self.vector.len();
        let mut i: usize = 0;
        while i < n
            invariant
                n == pre@.len(),
                self@.len() == pre@.len(),
                i <= n,
                forall|j: int|
                    0 <= j < i ==> C::spec_components_updated(pre@[j], dt, #[trigger] self@[j]),
                forall|j: int| i <= j < n ==> self@[j] == pre@[j],
            decreases n - i,
        {
            let child = &mut self.vector[i];
            child.update_components(dt);
            i = i + 1;
        }
    }
}

impl<C> Default for Children<C> {
    /// An empty container.
    fn default() -> (r: Children<C>)
        ensures
            r@ == Seq::<C>::empty(),
    {
        Children { vector: Vec::new() }
    }
}

/// Pushing keeps every earlier child in place: `push(a); push(b); push(c)`
/// yields exactly the sequence `[a, b, c]`.
pub proof fn lemma_push_order<C>(s: Seq<C>, a: C, b: C, c: C)
    ensures
        s.push(a).push(b).push(c) =~= s + seq![a, b, c],
        Seq::<C>::empty().push(a).push(b).push(c) =~= seq![a, b, c],
{
}

} // verus!
