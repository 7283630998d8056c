//! The fixed-capacity vectors of `tinyvec` in which cards keep their
//! attributes and card types their attributes and entry points.

use vstd::prelude::*;
use tinyvec::ArrayVec;
use crate::card::EntryPoint;
use crate::word::Word;

verus! {

/// How many items each of these vectors can hold.
pub const CAPACITY: usize = 16;

/// The attributes of a card or of a card type.
pub type Attrs = ArrayVec<[Word; CAPACITY]>;

/// The entry points of the actions of a card type.
pub type EntryPoints = ArrayVec<[EntryPoint; CAPACITY]>;

#[verifier::external_type_specification]
#[verifier::external_body]
#[verifier::reject_recursive_types(A)]
pub struct ExArrayVec<A>(ArrayVec<A>);

/// The attributes an [`Attrs`] holds, in order.
pub uninterp spec fn attrs_items(v: ArrayVec<[Word; 16]>) -> Seq<Word>;

/// The entry points an [`EntryPoints`] holds, in order.
pub uninterp spec fn entry_points_items(v: ArrayVec<[EntryPoint; 16]>) -> Seq<EntryPoint>;

/// What a vector of capacity [`CAPACITY`] that holds `held` holds after it
/// is filled from `items`: as many of them as fit, taken from the front.
pub open spec fn filled<T>(held: Seq<T>, items: Seq<T>) -> Seq<T> {
    let room = CAPACITY - held.len();
    if items.len() <= room {
        held + items
    } else {
        held + items.take(room)
    }
}

/// `ArrayVec::new`: an empty vector.
#[verifier::external_body]
pub(crate) fn attrs_new() -> (r: Attrs)
    ensures
        attrs_items(r) == Seq::<Word>::empty(),
{
    ArrayVec::new()
}

/// `ArrayVec::fill`: it appends the items from the front of `items` until
/// the vector is full; the rest are not taken.
#[verifier::external_body]
pub(crate) fn attrs_fill(v: &mut Attrs, items: Vec<Word>)
    ensures
        attrs_items(*old(v)).len() <= CAPACITY ==> attrs_items(*final(v)) == filled(attrs_items(*old(v)), items@),
{
    let _ = v.fill(items);
}

/// Indexing an `ArrayVec`: the `index`-th item.
#[verifier::external_body]
pub(crate) fn attrs_get(v: &Attrs, index: usize) -> (r: Word)
    requires
        index < attrs_items(*v).len(),
    ensures
        r == attrs_items(*v)[index as int],
{
    v[index]
}

/// Assigning through a mutable index of an `ArrayVec`: the `index`-th item
/// becomes `value`, and nothing else changes.
#[verifier::external_body]
pub(crate) fn attrs_set(v: &mut Attrs, index: usize, value: Word)
    requires
        index < attrs_items(*old(v)).len(),
    ensures
        attrs_items(*final(v)) == attrs_items(*old(v)).update(index as int, value),
{
    v[index] = value;
}

/// `ArrayVec::new`: an empty vector of entry points.
#[verifier::external_body]
pub(crate) fn entry_points_new() -> (r: EntryPoints)
    ensures
        entry_points_items(r) == Seq::<EntryPoint>::empty(),
{
    ArrayVec::new()
}

/// `ArrayVec::fill` on entry points: it appends them from the front of
/// `items` until the vector is full; the rest are not taken.
#[verifier::external_body]
pub(crate) fn entry_points_fill(v: &mut EntryPoints, items: Vec<EntryPoint>)
    ensures
        entry_points_items(*old(v)).len() <= CAPACITY ==> entry_points_items(*final(v)) == filled(
            entry_points_items(*old(v)),
            items@,
        ),
{
    let _ = v.fill(items);
}

/// Indexing an `ArrayVec` of entry points: the `index`-th one.
#[verifier::external_body]
pub(crate) fn entry_points_get(v: &EntryPoints, index: usize) -> (r: EntryPoint)
    requires
        index < entry_points_items(*v).len(),
    ensures
        r == entry_points_items(*v)[index as int],
{
    v[index]
}

} // verus!
