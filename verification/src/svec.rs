//! Trusted interface to `smallvec::SmallVec`, the inline-capacity vector
//! that backs the ordering and experimental-settings collections.
//!
//! `SmallVec`'s own generic signature cannot be declared to the verifier
//! (its `Array` bound is a trait of the outside crate), so each
//! instantiation is held in a private field of an opaque struct: a list of
//! wire codes for `SettingsOrder`, and a list of `(code, value)` pairs for
//! `ExperimentalSettings`.

use smallvec::SmallVec;
use vstd::prelude::*;

verus! {

/// A list of 16-bit wire codes, backed by `smallvec::SmallVec` with inline
/// room for the eight standard identifiers.
#[verifier::external_body]
pub struct IdList {
    items: SmallVec<[u16; 8]>,
}

impl Clone for IdList {
    /// Relies on `smallvec::SmallVec::clone`: the copy holds the same
    /// elements in the same order.
    #[verifier::external_body]
    fn clone(&self) -> (r: Self)
        ensures
            id_list_seq(r) == id_list_seq(*self),
    {
        IdList { items: self.items.clone() }
    }
}

/// A list of `(code, value)` pairs, backed by `smallvec::SmallVec` with
/// inline room for eight settings.
#[verifier::external_body]
pub struct PairList {
    items: SmallVec<[(u16, u32); 8]>,
}

impl Clone for PairList {
    /// Relies on `smallvec::SmallVec::clone`: the copy holds the same
    /// elements in the same order.
    #[verifier::external_body]
    fn clone(&self) -> (r: Self)
        ensures
            pair_list_seq(r) == pair_list_seq(*self),
    {
        PairList { items: self.items.clone() }
    }
}

/// The wire codes held by an identifier list, in insertion order.
pub uninterp spec fn id_list_seq(v: IdList) -> Seq<u16>;

/// The `(code, value)` pairs held by a setting list, in insertion order.
pub uninterp spec fn pair_list_seq(v: PairList) -> Seq<(u16, u32)>;

/// Relies on `smallvec::SmallVec::new`: a freshly created vector is empty.
#[verifier::external_body]
pub(crate) fn id_list_new() -> (r: IdList)
    ensures
        id_list_seq(r) == Seq::<u16>::empty(),
{
    IdList { items: SmallVec::new() }
}

/// Relies on `smallvec::SmallVec::push`: appends the element at the end.
#[verifier::external_body]
pub(crate) fn id_list_push(v: &mut IdList, code: u16)
    ensures
        id_list_seq(*final(v)) == id_list_seq(*old(v)).push(code),
{
    v.items.push(code);
}

/// Relies on `smallvec::SmallVec::len`: the number of elements held.
#[verifier::external_body]
pub(crate) fn id_list_len(v: &IdList) -> (r: usize)
    ensures
        r == id_list_seq(*v).len(),
{
    v.items.len()
}

/// Relies on `smallvec::SmallVec`'s slice indexing: the element in place `i`.
#[verifier::external_body]
pub(crate) fn id_list_get(v: &IdList, i: usize) -> (r: u16)
    requires
        i < id_list_seq(*v).len(),
    ensures
        r == id_list_seq(*v)[i as int],
{
    v.items[i]
}

/// Relies on `smallvec::SmallVec::new`: a freshly created vector is empty.
#[verifier::external_body]
pub(crate) fn pair_list_new() -> (r: PairList)
    ensures
        pair_list_seq(r) == Seq::<(u16, u32)>::empty(),
{
    PairList { items: SmallVec::new() }
}

/// Relies on `smallvec::SmallVec::push`: appends the element at the end.
#[verifier::external_body]
pub(crate) fn pair_list_push(v: &mut PairList, item: (u16, u32))
    ensures
        pair_list_seq(*final(v)) == pair_list_seq(*old(v)).push(item),
{
    v.items.push(item);
}

/// Relies on `smallvec::SmallVec::len`: the number of elements held.
#[verifier::external_body]
pub(crate) fn pair_list_len(v: &PairList) -> (r: usize)
    ensures
        r == pair_list_seq(*v).len(),
{
    v.items.len()
}

/// Relies on `smallvec::SmallVec`'s slice indexing: the element in place `i`.
#[verifier::external_body]
pub(crate) fn pair_list_get(v: &PairList, i: usize) -> (r: (u16, u32))
    requires
        i < pair_list_seq(*v).len(),
    ensures
        r == pair_list_seq(*v)[i as int],
{
    v.items[i]
}

} // verus!
