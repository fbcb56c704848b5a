use vstd::prelude::*;
use rand::seq::SliceRandom;

verus! {

#[verifier::external_type_specification]
#[verifier::external_body]
pub struct ExThreadRng(rand::rngs::ThreadRng);

/// Calls `rand::thread_rng`, which hands out the lazily seeded random
/// generator of the current thread. Nothing is promised of its state.
#[verifier::external_body]
pub(crate) fn thread_rng() -> (rng: rand::rngs::ThreadRng) {
    rand::thread_rng()
}

/// Calls `rand::seq::SliceRandom::choose` on a byte slice: it returns `None`
/// exactly when the slice is empty and otherwise a reference to one of the
/// slice's elements. Which element comes back is left to chance and is not
/// stated.
#[verifier::external_body]
pub(crate) fn choose_byte<'a>(items: &'a [u8], rng: &mut rand::rngs::ThreadRng) -> (picked: Option<&'a u8>)
    ensures
        picked is None <==> items@.len() == 0,
        picked matches Some(b) ==> items@.contains(*b),
{
    items.choose(rng)
}

} // verus!
