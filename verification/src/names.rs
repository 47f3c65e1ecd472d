//! Names of layers and extensions, as the bytes before the terminator.

use vstd::prelude::*;

verus! {

/// Some name in `available` is `name`.
pub open spec fn spec_contains_name(available: Seq<Vec<u8>>, name: Seq<u8>) -> bool {
    exists|j: int| 0 <= j < available.len() && (#[trigger] available[j])@ == name
}

/// Every name in `required` is in `available`.
pub open spec fn spec_contains_all_names(available: Seq<Vec<u8>>, required: Seq<Vec<u8>>) -> bool {
    forall|i: int|
        0 <= i < required.len() ==> spec_contains_name(available, (#[trigger] required[i])@)
}

/// The name that `bytes` spell, as an owned value.
pub fn name_from(bytes: &[u8]) -> (name: Vec<u8>)
    ensures
        name@ == bytes@,
{
    let mut name: Vec<u8> = Vec::new();
    let mut i: usize = 0;
    while i < bytes.len()
        invariant
            0 <= i <= bytes@.len(),
            name@.len() == i,
            forall|j: int| 0 <= j < i ==> name@[j] == bytes@[j],
        decreases bytes@.len() - i,
    {
        name.push(bytes[i]);
        i = i + 1;
    }
    assert(name@ =~= bytes@);
    name
}

/// Whether two names are the same, byte for byte.
pub fn name_eq(a: &[u8], b: &[u8]) -> (same: bool)
    ensures
        same == (a@ == b@),
{
    if a.len() != b.len() {
        return false;
    }
    let mut i: usize = 0;
    while i < a.len()
        invariant
            0 <= i <= a@.len(),
            a@.len() == b@.len(),
            forall|j: int| 0 <= j < i ==> a@[j] == b@[j],
        decreases a@.len() - i,
    {
        if a[i] != b[i] {
            return false;
        }
        i = i + 1;
    }
    assert(a@ =~= b@);
    true
}

/// Whether `name` is among `available`.
pub fn contains_name(available: &[Vec<u8>], name: &[u8]) -> (found: bool)
    ensures
        found == spec_contains_name(available@, name@),
{
    let mut i: usize = 0;
    while i < available.len()
        invariant
            0 <= i <= available@.len(),
            forall|j: int| 0 <= j < i ==> (#[trigger] available@[j])@ != name@,
        decreases available@.len() - i,
    {
        if name_eq(available[i].as_slice(), name) {
            return true;
        }
        i = i + 1;
    }
    false
}

/// Whether every name in `required` is among `available`.
pub fn contains_all_names(available: &[Vec<u8>], required: &[Vec<u8>]) -> (all: bool)
    ensures
        all == spec_contains_all_names(available@, required@),
{
    let mut i: usize = 0;
    while i < required.len()
        invariant
            0 <= i <= required@.len(),
            forall|j: int|
                0 <= j < i ==> spec_contains_name(available@, (#[trigger] required@[j])@),
        decreases required@.len() - i,
    {
        if !contains_name(available, required[i].as_slice()) {
            return false;
        }
        i = i + 1;
    }
    true
}

} // verus!
