//! Tensors on their way across the boundary.
//!
//! A host tensor goes in as a borrowed reference, which owns nothing and
//! lives for the call only. A result comes back as an owned handle, which
//! is turned into a host tensor exactly once: the handle is moved into the
//! conversion and is gone after it.

use vstd::prelude::*;

verus! {

/// Whether `refs` holds one borrowed reference for each of `tensors`, in
/// their order, as `borrow` makes them.
pub open spec fn borrowed_from<T, P, B: Fn(&T) -> P>(
    tensors: Seq<T>,
    borrow: B,
    refs: Seq<P>,
) -> bool {
    &&& refs.len() == tensors.len()
    &&& forall|i: int|
        0 <= i < tensors.len() ==> borrow.ensures((&tensors[i],), #[trigger] refs[i])
}

/// Whether `tensors` holds one host tensor for each of `owned`, in their
/// order, as `adopt` makes them.
pub open spec fn adopted_from<O, T, A: Fn(O) -> T>(
    owned: Seq<O>,
    adopt: A,
    tensors: Seq<T>,
) -> bool {
    &&& tensors.len() == owned.len()
    &&& forall|i: int| 0 <= i < owned.len() ==> adopt.ensures((owned[i],), #[trigger] tensors[i])
}

/// Makes the borrowed references that a boundary call takes: one for each
/// host tensor, in order.
pub fn tensors_to_ptrs<T, P, B: Fn(&T) -> P>(tensors: &[T], borrow: B) -> (refs: Vec<P>)
    requires
        forall|i: int| 0 <= i < tensors@.len() ==> borrow.requires((&#[trigger] tensors@[i],)),
    ensures
        borrowed_from(tensors@, borrow, refs@),
{
    let mut refs: Vec<P> = Vec::with_capacity(tensors.len());
    let mut i: usize = 0;
    while i < tensors.len()
        invariant
            i <= tensors@.len(),
            refs@.len() == i,
            forall|k: int| 0 <= k < tensors@.len() ==> borrow.requires((&#[trigger] tensors@[k],)),
            forall|k: int| 0 <= k < i ==> borrow.ensures((&tensors@[k],), #[trigger] refs@[k]),
        decreases tensors@.len() - i,
    {
        let made = borrow(&tensors[i]);
        refs.push(made);
        i += 1;
    }
    refs
}

/// Turns the owned handles that a boundary call returned into host
/// tensors: each handle is moved into `adopt` once, and the tensors keep
/// the order of the handles.
pub fn owned_to_tensors<O, T, A: Fn(O) -> T>(owned: Vec<O>, adopt: A) -> (tensors: Vec<T>)
    requires
        forall|i: int| 0 <= i < owned@.len() ==> adopt.requires((#[trigger] owned@[i],)),
    ensures
        adopted_from(owned@, adopt, tensors@),
{
    let ghost handles = owned@;
    let mut tensors: Vec<T> = Vec::with_capacity(owned.len());
    for handle in it: owned
        invariant
            it.seq() == handles,
            forall|k: int| 0 <= k < handles.len() ==> adopt.requires((#[trigger] handles[k],)),
            tensors@.len() == it.index(),
            forall|k: int| 0 <= k < it.index() ==> adopt.ensures((handles[k],), #[trigger] tensors@[k]),
    {
        let made = adopt(handle);
        tensors.push(made);
    }
    tensors
}

} // verus!
