//! The choice of a physical device: which devices offer what is needed, and
//! which of those is taken.

use vstd::prelude::*;

verus! {

/// Whether two names are the same bytes.
pub fn same_name(left: &[u8], right: &[u8]) -> (same: bool)
    ensures
        same == (left@ == right@),
{
    if left.len() != right.len() {
        return false;
    }
    let mut i: usize = 0;
    while i < left.len()
        invariant
            i <= left@.len(),
            left@.len() == right@.len(),
            forall|j: int| 0 <= j < i ==> left@[j] == right@[j],
        decreases left@.len() - i,
    {
        if left[i] != right[i] {
            return false;
        }
        i += 1;
    }
    assert(left@ =~= right@);
    true
}

/// Whether `name` is one of `names`.
pub open spec fn has_name(names: Seq<Vec<u8>>, name: Seq<u8>) -> bool {
    exists|i: int| 0 <= i < names.len() && (#[trigger] names[i])@ == name
}

/// Whether `name` is one of `names`.
pub fn contains_name(names: &[Vec<u8>], name: &[u8]) -> (found: bool)
    ensures
        found == has_name(names@, name@),
{
    let mut i: usize = 0;
    while i < names.len()
        invariant
            i <= names@.len(),
            forall|j: int| 0 <= j < i ==> (#[trigger] names@[j])@ != name@,
        decreases names@.len() - i,
    {
        if same_name(names[i].as_slice(), name) {
            return true;
        }
        i += 1;
    }
    false
}

/// Whether every name of `required` is one of `supported`: what a device
/// must offer is a subset of what it offers.
pub fn supports_all(required: &[Vec<u8>], supported: &[Vec<u8>]) -> (all: bool)
    ensures
        all == (forall|i: int|
            0 <= i < required@.len() ==> has_name(supported@, (#[trigger] required@[i])@)),
{
    let mut i: usize = 0;
    while i < required.len()
        invariant
            i <= required@.len(),
            forall|j: int| 0 <= j < i ==> has_name(supported@, (#[trigger] required@[j])@),
        decreases required@.len() - i,
    {
        if !contains_name(supported, required[i].as_slice()) {
            return false;
        }
        i += 1;
    }
    true
}

/// Whether `chosen` is the choice among devices of which `discrete` says
/// whether each is a discrete one: the first discrete device, else the first
/// device, else none.
pub open spec fn is_choice(discrete: Seq<bool>, chosen: Option<usize>) -> bool {
    match chosen {
        None => discrete.len() == 0,
        Some(i) => {
            &&& i < discrete.len()
            &&& forall|j: int| 0 <= j < i ==> !discrete[j]
            &&& discrete[i as int] || (i == 0 && forall|j: int|
                0 <= j < discrete.len() ==> !discrete[j])
        },
    }
}

/// The device to use among the suitable ones.
pub fn pick_physical_device(discrete: &[bool]) -> (chosen: Option<usize>)
    ensures
        is_choice(discrete@, chosen),
{
    if discrete.len() == 0 {
        return None;
    }
    let mut i: usize = 0;
    while i < discrete.len()
        invariant
            i <= discrete@.len(),
            discrete@.len() > 0,
            forall|j: int| 0 <= j < i ==> !discrete@[j],
        decreases discrete@.len() - i,
    {
        if discrete[i] {
            return Some(i);
        }
        i += 1;
    }
    Some(0)
}

} // verus!
