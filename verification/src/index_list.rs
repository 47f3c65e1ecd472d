//! Small inline lists of queue family indices, kept in a `SmallVec`.
//!
//! The verifier does not look into the list. What the rest of the crate
//! knows of it is what the functions of this module state about
//! `index_list_items`; those statements are taken from the source of
//! `smallvec` and are not proved here.

use vstd::prelude::*;

verus! {

/// A list of queue family indices: a `smallvec::SmallVec` of `i32` that
/// keeps up to 64 of them inline and moves to the heap beyond that.
#[verifier::external_body]
pub struct IndexList {
    items: smallvec::SmallVec<[i32; 64]>,
}

/// The indices that a list holds, first pushed first.
pub uninterp spec fn index_list_items(list: IndexList) -> Seq<i32>;

/// The most indices a list may hold before another is pushed. Up to here
/// the capacity that a push asks for can be computed and allocated on every
/// machine, so that the push does not panic.
pub const INDEX_LIST_LIMIT: usize = 0x0fff_ffff;

/// `smallvec::SmallVec::new`: the new list holds nothing.
#[verifier::external_body]
pub(crate) fn index_list_new() -> (list: IndexList)
    ensures
        index_list_items(list) == Seq::<i32>::empty(),
{
    IndexList { items: smallvec::SmallVec::new() }
}

/// `smallvec::SmallVec::len`: the number of indices held.
#[verifier::external_body]
pub(crate) fn index_list_len(list: &IndexList) -> (n: usize)
    ensures
        n == index_list_items(*list).len(),
{
    list.items.len()
}

/// `smallvec::SmallVec::push`: the index is appended behind those already
/// held, which stay as they are.
#[verifier::external_body]
pub(crate) fn index_list_push(list: &mut IndexList, value: i32)
    requires
        index_list_items(*old(list)).len() <= INDEX_LIST_LIMIT,
    ensures
        index_list_items(*final(list)) == index_list_items(*old(list)).push(value),
{
    list.items.push(value)
}

/// `smallvec::SmallVec::as_slice`: the indices held, in the order they were
/// pushed.
#[verifier::external_body]
pub(crate) fn index_list_as_slice(list: &IndexList) -> (s: &[i32])
    ensures
        s@ == index_list_items(*list),
{
    list.items.as_slice()
}

} // verus!
