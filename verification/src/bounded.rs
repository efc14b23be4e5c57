//! The per-account list of kitties, kept in a `BoundedVec` whose type carries
//! the capacity.

use frame_support::traits::ConstU32;
use frame_support::BoundedVec;
use vstd::prelude::*;

use crate::types::Dna;

verus! {

/// The most kitties one account can hold.
pub const MAX_KITTIES_OWNED: u32 = 100;

/// `frame_support::BoundedVec`, opaque to the verifier; what a value holds is
/// spoken of through [`owned_ids`].
#[verifier::external_type_specification]
#[verifier::external_body]
#[verifier::reject_recursive_types(T)]
#[verifier::reject_recursive_types(S)]
pub struct ExBoundedVec<T, S>(BoundedVec<T, S>);

/// `frame_support::traits::ConstU32`, the type-level capacity of a list.
#[verifier::external_type_specification]
#[verifier::external_body]
pub struct ExConstU32<const N: u32>(ConstU32<N>);

/// The list of kitties one account holds.
pub type OwnedList = BoundedVec<Dna, ConstU32<MAX_KITTIES_OWNED>>;

/// The identifiers a list holds, in order.
pub uninterp spec fn owned_ids(list: BoundedVec<Dna, ConstU32<MAX_KITTIES_OWNED>>) -> Seq<Dna>;

/// `BoundedVec::new`: a list that holds nothing.
#[verifier::external_body]
pub(crate) fn owned_list_new() -> (list: OwnedList)
    ensures
        owned_ids(list) == Seq::<Dna>::empty(),
{
    BoundedVec::new()
}

/// `BoundedVec::try_push`: appends `id` at the end while the list holds fewer
/// than `MAX_KITTIES_OWNED` identifiers; a full list is left as it is and
/// `id` comes back in the error.
#[verifier::external_body]
pub(crate) fn owned_list_try_push(list: &mut OwnedList, id: Dna) -> (pushed: Result<(), Dna>)
    ensures
        pushed is Ok <==> owned_ids(*old(list)).len() < MAX_KITTIES_OWNED,
        pushed is Ok ==> owned_ids(*final(list)) == owned_ids(*old(list)).push(id),
        pushed matches Err(back) ==> back == id && owned_ids(*final(list)) == owned_ids(
            *old(list),
        ),
{
    list.try_push(id)
}

/// `BoundedVec::swap_remove`: takes out the identifier at `index` and hands
/// it back; the last identifier moves into the gap and the list gets shorter
/// by one.
#[verifier::external_body]
pub(crate) fn owned_list_swap_remove(list: &mut OwnedList, index: usize) -> (id: Dna)
    requires
        index < owned_ids(*old(list)).len(),
    ensures
        id == owned_ids(*old(list))[index as int],
        owned_ids(*final(list)) == owned_ids(*old(list)).update(
            index as int,
            owned_ids(*old(list)).last(),
        ).drop_last(),
{
    list.swap_remove(index)
}

/// `AsRef<[T]>::as_ref` of `BoundedVec`: the identifiers as a slice.
#[verifier::external_body]
pub(crate) fn owned_list_as_slice(list: &OwnedList) -> (ids: &[Dna])
    ensures
        ids@ == owned_ids(*list),
{
    AsRef::<[Dna]>::as_ref(list)
}

} // verus!
