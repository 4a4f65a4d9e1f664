//! The list in which a pane keeps its content items: a `SmallVec` with room
//! for two items inline, holding the handle of each item.
//!
//! The list itself is opaque to the verifier. What it holds is named by
//! [`items`], and each operation that the layout uses is stated over that
//! name. These statements are taken from the `smallvec` source and are not
//! proved here.

use smallvec::SmallVec;
use vstd::prelude::*;

verus! {

/// An ordered list of content handles, kept in a `SmallVec` that holds two
/// of them without allocating. The verifier does not look inside: all that
/// is known of a list is what the functions below state of [`items`].
#[verifier::external_body]
pub struct ContentList {
    inner: SmallVec<[u64; 2]>,
}

/// The handles that a list holds, first to last.
pub uninterp spec fn items(list: ContentList) -> Seq<u64>;

/// A length below which a list is sure to take one more item. To grow,
/// `smallvec` rounds the new capacity up to a power of two and multiplies it
/// by the item's eight bytes; below this length neither step overflows.
pub open spec fn push_limit() -> nat {
    (usize::MAX / 32) as nat
}

impl View for ContentList {
    type V = Seq<u64>;

    open spec fn view(&self) -> Seq<u64> {
        items(*self)
    }
}

impl ContentList {
    /// The number of handles held.
    pub fn len(&self) -> (n: usize)
        ensures
            n == self@.len(),
    {
        list_len(self)
    }

    /// Adds a handle behind those already held.
    pub fn push(&mut self, handle: u64)
        requires
            old(self)@.len() < push_limit(),
        ensures
            final(self)@ == old(self)@.push(handle),
    {
        list_push(self, handle)
    }
}

/// `SmallVec::new`: a list that holds nothing.
#[verifier::external_body]
pub(crate) fn new_list() -> (list: ContentList)
    ensures
        items(list) == Seq::<u64>::empty(),
{
    ContentList { inner: SmallVec::new() }
}

/// `SmallVec::len`: the number of items held.
#[verifier::external_body]
pub(crate) fn list_len(list: &ContentList) -> (n: usize)
    ensures
        n == items(*list).len(),
{
    list.inner.len()
}

/// `SmallVec::push`: the item is appended behind those already held, which
/// stay as they are. Lengths at which the capacity computation would
/// overflow, where `push` panics, are left out. Running out of memory ends
/// the process and is not modelled.
#[verifier::external_body]
pub(crate) fn list_push(list: &mut ContentList, item: u64)
    requires
        items(*old(list)).len() < push_limit(),
    ensures
        items(*final(list)) == items(*old(list)).push(item),
{
    list.inner.push(item)
}

/// `SmallVec::into_vec`: the same items in the same order, as a `Vec`.
#[verifier::external_body]
pub(crate) fn list_into_vec(list: ContentList) -> (v: Vec<u64>)
    ensures
        v@ == items(list),
{
    list.inner.into_vec()
}

} // verus!
