//! Resource groups: several GPU resources bound together under one layout.
//! Resource `i` of a group is always bound at binding index `i`, in the
//! order in which the resources were given.

use vstd::prelude::*;

verus! {

/// One binding of a group's layout: the binding index and the layout entry
/// that describes the resource bound there.
#[derive(Clone, Copy, Debug, PartialEq)]
pub struct BindingSlot<E> {
    pub binding: u32,
    pub entry: E,
}

/// The layout of a group whose resources each come with their own entry:
/// slot `i` binds resource `i` at index `i` with `entries[i]`.
///
/// One entry per resource is the caller's duty: `entries` has exactly
/// `resource_count` elements.
pub fn layout_slots<E: Copy>(resource_count: usize, entries: &Vec<E>) -> (r: Vec<BindingSlot<E>>)
    requires
        entries@.len() == resource_count,
        resource_count <= u32::MAX,
    ensures
        r@.len() == resource_count,
        forall|i: int|
            0 <= i < resource_count ==> #[trigger] r@[i] == (BindingSlot { binding: i as u32, entry: entries@[i] }),
{
    let mut r: Vec<BindingSlot<E>> = Vec::with_capacity(resource_count);
    let mut i: usize = 0;
    while i < resource_count
        invariant
            i <= resource_count,
            entries@.len() == resource_count,
            resource_count <= u32::MAX,
            r@.len() == i,
            forall|j: int|
                0 <= j < i ==> #[trigger] r@[j] == (BindingSlot { binding: j as u32, entry: entries@[j] }),
        decreases resource_count - i,
    {
        r.push(BindingSlot { binding: i as u32, entry: entries[i] });
        i = i + 1;
    }
    r
}

/// The layout of a group whose resources all share one entry: slot `i`
/// binds resource `i` at index `i` with `entry`.
pub fn fixed_entry_slots<E: Copy>(resource_count: usize, entry: E) -> (r: Vec<BindingSlot<E>>)
    requires
        resource_count <= u32::MAX,
    ensures
        r@.len() == resource_count,
        forall|i: int|
            0 <= i < resource_count ==> #[trigger] r@[i] == (BindingSlot { binding: i as u32, entry }),
{
    let mut r: Vec<BindingSlot<E>> = Vec::with_capacity(resource_count);
    let mut i: usize = 0;
    while i < resource_count
        invariant
            i <= resource_count,
            resource_count <= u32::MAX,
            r@.len() == i,
            forall|j: int|
                0 <= j < i ==> #[trigger] r@[j] == (BindingSlot { binding: j as u32, entry }),
        decreases resource_count - i,
    {
        r.push(BindingSlot { binding: i as u32, entry });
        i = i + 1;
    }
    r
}

/// The binding index of each resource of a group, in order: `0`, `1`, ...
pub fn binding_indices(resource_count: usize) -> (r: Vec<u32>)
    requires
        resource_count <= u32::MAX,
    ensures
        r@.len() == resource_count,
        forall|i: int| 0 <= i < resource_count ==> #[trigger] r@[i] == i,
{
    let mut r: Vec<u32> = Vec::with_capacity(resource_count);
    let mut i: usize = 0;
    while i < resource_count
        invariant
            i <= resource_count,
            resource_count <= u32::MAX,
            r@.len() == i,
            forall|j: int| 0 <= j < i ==> #[trigger] r@[j] == j,
        decreases resource_count - i,
    {
        r.push(i as u32);
        i = i + 1;
    }
    r
}

} // verus!
