//! Small inline lists of handles, kept in a `SmallVec`: the images of a
//! swapchain, and the descriptor set layouts of a pipeline layout.
//!
//! The verifier does not look into the lists. What the rest of the crate
//! knows of them is what the functions of this module state about
//! `image_list_items` and `layout_list_items`; those statements are taken
//! from the source of `smallvec` and are not proved here. The two lists
//! differ in how many handles they keep inline, which is part of their
//! type, so each has functions of its own.

use vstd::prelude::*;

verus! {

/// The images of a swapchain: a `smallvec::SmallVec` of handles that keeps
/// up to 8 of them inline and moves to the heap beyond that.
#[verifier::external_body]
pub struct ImageList {
    items: smallvec::SmallVec<[u64; 8]>,
}

/// The handles that an image list holds, first pushed first.
pub uninterp spec fn image_list_items(list: ImageList) -> Seq<u64>;

/// The most handles a list may hold before another is pushed. Up to here
/// the capacity that a push asks for can be computed and allocated on every
/// machine, so that the push does not panic.
pub const HANDLE_LIST_LIMIT: usize = 0x07ff_ffff;

/// `smallvec::SmallVec::new`: the new list holds nothing.
#[verifier::external_body]
pub(crate) fn image_list_new() -> (list: ImageList)
    ensures
        image_list_items(list) == Seq::<u64>::empty(),
{
    ImageList { items: smallvec::SmallVec::new() }
}

/// `smallvec::SmallVec::push`: the handle is appended behind those already
/// held, which stay as they are.
#[verifier::external_body]
pub(crate) fn image_list_push(list: &mut ImageList, value: u64)
    requires
        image_list_items(*old(list)).len() <= HANDLE_LIST_LIMIT,
    ensures
        image_list_items(*final(list)) == image_list_items(*old(list)).push(value),
{
    list.items.push(value)
}

/// `smallvec::SmallVec::as_slice`: the handles held, in the order they were
/// pushed.
#[verifier::external_body]
pub(crate) fn image_list_as_slice(list: &ImageList) -> (s: &[u64])
    ensures
        s@ == image_list_items(*list),
{
    list.items.as_slice()
}

/// The descriptor set layouts of a pipeline layout: a `smallvec::SmallVec`
/// of handles that keeps up to 16 of them inline.
#[verifier::external_body]
pub struct LayoutList {
    items: smallvec::SmallVec<[u64; 16]>,
}

/// The handles that a layout list holds, first pushed first.
pub uninterp spec fn layout_list_items(list: LayoutList) -> Seq<u64>;

/// `smallvec::SmallVec::new`: the new list holds nothing.
#[verifier::external_body]
pub(crate) fn layout_list_new() -> (list: LayoutList)
    ensures
        layout_list_items(list) == Seq::<u64>::empty(),
{
    LayoutList { items: smallvec::SmallVec::new() }
}

/// `smallvec::SmallVec::push`: the handle is appended behind those already
/// held, which stay as they are.
#[verifier::external_body]
pub(crate) fn layout_list_push(list: &mut LayoutList, value: u64)
    requires
        layout_list_items(*old(list)).len() <= HANDLE_LIST_LIMIT,
    ensures
        layout_list_items(*final(list)) == layout_list_items(*old(list)).push(value),
{
    list.items.push(value)
}

/// `smallvec::SmallVec::len`: the number of handles held.
#[verifier::external_body]
pub(crate) fn layout_list_len(list: &LayoutList) -> (n: usize)
    ensures
        n == layout_list_items(*list).len(),
{
    list.items.len()
}

/// `smallvec::SmallVec::as_slice`: the handles held, in the order they were
/// pushed.
#[verifier::external_body]
pub(crate) fn layout_list_as_slice(list: &LayoutList) -> (s: &[u64])
    ensures
        s@ == layout_list_items(*list),
{
    list.items.as_slice()
}

} // verus!
