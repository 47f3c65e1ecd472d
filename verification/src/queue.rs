//! Which queue families of a device can render and which can present.

use vstd::prelude::*;
use crate::index_list::{IndexList, INDEX_LIST_LIMIT, index_list_items, index_list_new,
    index_list_len, index_list_push, index_list_as_slice};
use crate::vk::QueueFamilyProperties;

verus! {

/// The family has a queue and offers at least one of the operations in `flags`.
pub open spec fn family_has_flags(family: QueueFamilyProperties, flags: u32) -> bool {
    family.queue_count > 0 && family.queue_flags & flags != 0
}

/// The family has a queue and can present to the surface.
pub open spec fn family_presents(family: QueueFamilyProperties) -> bool {
    family.queue_count > 0 && family.presentation_support
}

/// The least index of a family with `flags`, or the number of families where
/// there is none.
pub open spec fn first_family_with_flags(families: Seq<QueueFamilyProperties>, flags: u32) -> int
    decreases families.len(),
{
    if families.len() == 0 {
        0
    } else if family_has_flags(families[0], flags) {
        0
    } else {
        1 + first_family_with_flags(families.skip(1), flags)
    }
}

/// The indices below `end` of the families that present, in rising order.
pub open spec fn presenting_families(families: Seq<QueueFamilyProperties>, end: int) -> Seq<i32>
    decreases end,
{
    if end <= 0 || end > families.len() {
        Seq::<i32>::empty()
    } else if family_presents(families[end - 1]) {
        presenting_families(families, end - 1).push((end - 1) as i32)
    } else {
        presenting_families(families, end - 1)
    }
}

/// How many families the search looks at: up to and including the first one
/// with `flags`.
pub open spec fn families_searched(families: Seq<QueueFamilyProperties>, flags: u32) -> int {
    let first = first_family_with_flags(families, flags);
    if first < families.len() { first + 1 } else { families.len() as int }
}

/// The first family with `flags` is within the sequence or is its length,
/// no family before it has the flags, and it has them where it exists.
pub proof fn lemma_first_family_with_flags(families: Seq<QueueFamilyProperties>, flags: u32)
    ensures
        0 <= first_family_with_flags(families, flags) <= families.len(),
        forall|j: int| 0 <= j < first_family_with_flags(families, flags)
            ==> !family_has_flags(#[trigger] families[j], flags),
        first_family_with_flags(families, flags) < families.len()
            ==> family_has_flags(families[first_family_with_flags(families, flags)], flags),
    decreases families.len(),
{
    if families.len() > 0 && !family_has_flags(families[0], flags) {
        let rest = families.skip(1);
        lemma_first_family_with_flags(rest, flags);
        let first = first_family_with_flags(families, flags);
        assert forall|j: int| 0 <= j < first implies !family_has_flags(
            #[trigger] families[j],
            flags,
        ) by {
            if j > 0 {
                assert(families[j] == rest[j - 1]);
            }
        }
        if first < families.len() {
            assert(families[first] == rest[first - 1]);
        }
    }
}

/// An index that is the first with the flags is what the search yields.
pub proof fn lemma_first_family_is(families: Seq<QueueFamilyProperties>, flags: u32, k: int)
    requires
        0 <= k <= families.len(),
        forall|j: int| 0 <= j < k ==> !family_has_flags(#[trigger] families[j], flags),
        k < families.len() ==> family_has_flags(families[k], flags),
    ensures
        first_family_with_flags(families, flags) == k,
{
    lemma_first_family_with_flags(families, flags);
    let first = first_family_with_flags(families, flags);
    if first < k {
        assert(!family_has_flags(families[first], flags));
    } else if k < first {
        assert(family_has_flags(families[k], flags));
    }
}

/// The families of one physical device that were found to serve.
pub struct QueueFamilyIndices {
    /// The physical device the families belong to.
    pub physical_device: u64,
    /// The operations that were asked for.
    pub flags: u32,
    /// The families that offer the requested operations.
    pub flag_idxs: IndexList,
    /// The families that can present to the surface.
    pub presentation_support_idxs: IndexList,
}

impl QueueFamilyIndices {
    /// The families found to offer the requested operations.
    pub open spec fn flag_view(&self) -> Seq<i32> {
        index_list_items(self.flag_idxs)
    }

    /// The families found to present.
    pub open spec fn presentation_view(&self) -> Seq<i32> {
        index_list_items(self.presentation_support_idxs)
    }

    /// The family that presents: the one that renders where it can present
    /// too, so that one family does both; else the first that presents.
    pub open spec fn spec_present_family(&self) -> Option<i32> {
        if self.flag_view().len() > 0 && self.presentation_view().contains(self.flag_view()[0]) {
            Some(self.flag_view()[0])
        } else if self.presentation_view().len() > 0 {
            Some(self.presentation_view()[0])
        } else {
            None
        }
    }

    /// A record for `physical_device` with no family found yet.
    pub fn new(physical_device: u64, flags: u32) -> (indices: QueueFamilyIndices)
        ensures
            indices.flag_view() == Seq::<i32>::empty(),
            indices.presentation_view() == Seq::<i32>::empty(),
            indices.physical_device == physical_device,
            indices.flags == flags,
    {
        QueueFamilyIndices {
            flag_idxs: index_list_new(),
            presentation_support_idxs: index_list_new(),
            physical_device,
            flags,
        }
    }

    /// Whether a family with the requested operations was found.
    pub fn is_complete(&self) -> (complete: bool)
        ensures
            complete == (self.flag_view().len() > 0),
    {
        index_list_len(&self.flag_idxs) > 0
    }

    /// The families that offer the requested operations.
    pub fn family_idxs(&self) -> (idxs: &[i32])
        ensures
            idxs@ == self.flag_view(),
    {
        index_list_as_slice(&self.flag_idxs)
    }

    /// The family to present with, if any family presents.
    pub fn present_family(&self) -> (family: Option<i32>)
        ensures
            family == self.spec_present_family(),
    {
        let rendering = index_list_as_slice(&self.flag_idxs);
        let presenting = index_list_as_slice(&self.presentation_support_idxs);
        if rendering.len() > 0 {
            let wanted: i32 = rendering[0];
            let mut i: usize = 0;
            while i < presenting.len()
                invariant
                    0 <= i <= presenting@.len(),
                    presenting@ == self.presentation_view(),
                    rendering@ == self.flag_view(),
                    rendering@.len() > 0,
                    wanted == rendering@[0],
                    forall|j: int| 0 <= j < i ==> presenting@[j] != wanted,
                decreases presenting@.len() - i,
            {
                if presenting[i] == wanted {
                    assert(self.presentation_view()[i as int] == self.flag_view()[0]);
                    return Some(wanted);
                }
                i = i + 1;
            }
        }
        if presenting.len() > 0 {
            Some(presenting[0])
        } else {
            None
        }
    }

    /// The families that can present to the surface.
    pub fn presentation_idxs(&self) -> (idxs: &[i32])
        ensures
            idxs@ == self.presentation_view(),
    {
        index_list_as_slice(&self.presentation_support_idxs)
    }

}

/// The most queue families that one search can take.
pub const MAX_QUEUE_FAMILIES: usize = INDEX_LIST_LIMIT;

/// Searches the families of `device` in order, up to and including the first
/// one that has a queue and offers an operation in `queue_flags`. That family
/// is recorded, and so is every family looked at that has a queue and can
/// present.
pub fn queue_families(
    families: &[QueueFamilyProperties],
    device: u64,
    queue_flags: u32,
) -> (indices: QueueFamilyIndices)
    requires
        families@.len() <= MAX_QUEUE_FAMILIES,
    ensures
        indices.physical_device == device,
        indices.flags == queue_flags,
        first_family_with_flags(families@, queue_flags) < families@.len() ==> indices.flag_view()
            == seq![first_family_with_flags(families@, queue_flags) as i32],
        first_family_with_flags(families@, queue_flags) >= families@.len() ==> indices.flag_view()
            == Seq::<i32>::empty(),
        indices.presentation_view() == presenting_families(
            families@,
            families_searched(families@, queue_flags),
        ),
{
    let mut indices = QueueFamilyIndices::new(device, queue_flags);
    let mut i: usize = 0;
    let mut found: bool = false;
    while i < families.len() && !found
        invariant
            0 <= i <= families@.len(),
            families@.len() <= MAX_QUEUE_FAMILIES,
            indices.physical_device == device,
            indices.flags == queue_flags,
            !found ==> indices.flag_view() == Seq::<i32>::empty(),
            !found ==> forall|j: int| 0 <= j < i ==> !family_has_flags(
                #[trigger] families@[j],
                queue_flags,
            ),
            found ==> 0 < i && family_has_flags(families@[i - 1], queue_flags)
                && indices.flag_view() == seq![(i - 1) as i32]
                && forall|j: int| 0 <= j < i - 1 ==> !family_has_flags(
                    #[trigger] families@[j],
                    queue_flags,
                ),
            indices.presentation_view() == presenting_families(families@, i as int),
            indices.presentation_view().len() <= i,
        decreases families@.len() - i + (if found { 0int } else { 1int }),
    {
        let family = families[i];
        let index: i32 = i as i32;
        if family.queue_count > 0 && family.queue_flags & queue_flags != 0 {
            index_list_push(&mut indices.flag_idxs, index);
            found = true;
        }
        if family.queue_count > 0 && family.presentation_support {
            index_list_push(&mut indices.presentation_support_idxs, index);
        }
        i = i + 1;
    }
    proof {
        if found {
            lemma_first_family_is(families@, queue_flags, i - 1);
        } else {
            lemma_first_family_is(families@, queue_flags, families@.len() as int);
        }
    }
    indices
}

/// One queue of a device: its family and its place in the family.
#[derive(Clone, Copy, Debug, PartialEq, Eq, Structural)]
pub struct Queue {
    pub family_idx: u32,
    pub idx: u32,
}

impl Queue {
    /// The queue at `queue_index` in family `queue_family_index`.
    pub fn new(queue_family_index: u32, queue_index: u32) -> (queue: Queue)
        ensures
            queue.family_idx == queue_family_index,
            queue.idx == queue_index,
    {
        Queue { family_idx: queue_family_index, idx: queue_index }
    }
}

} // verus!
