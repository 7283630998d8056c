//! The state of a game: its objects, its own attributes, and the counter that
//! hands out object ids.

use vstd::prelude::*;
use crate::word::Word;
use crate::on_chain_types::object::{Object, ObjectView, objects_view};

verus! {

/// The size of the account that holds a game state.
pub const BOARD_ACCOUNT_SIZE: usize = 1024;

/// What a [`GameState`] holds.
pub struct GameStateView {
    pub objects: Seq<ObjectView>,
    pub attrs: Seq<Word>,
    pub object_index: u32,
}

/// The objects of a game, the game's attributes, and the next object id.
#[derive(Debug, Clone, PartialEq, Eq)]
pub struct GameState {
    pub objects: Vec<Object>,
    pub attrs: Vec<Word>,
    object_index: u32,
}

impl View for GameState {
    type V = GameStateView;

    closed spec fn view(&self) -> GameStateView {
        GameStateView {
            objects: objects_view(self.objects@),
            attrs: self.attrs@,
            object_index: self.object_index,
        }
    }
}

/// How many objects have type `t`.
pub open spec fn count_of_type(objects: Seq<ObjectView>, t: u32) -> nat
    decreases objects.len(),
{
    if objects.len() == 0 {
        0
    } else {
        count_of_type(objects.drop_last(), t) + if objects.last().object_type == t {
            1nat
        } else {
            0nat
        }
    }
}

/// The objects whose id is `id`, in their order.
pub open spec fn with_id(objects: Seq<ObjectView>, id: u32) -> Seq<ObjectView>
    decreases objects.len(),
{
    if objects.len() == 0 {
        objects
    } else if objects.last().id == id {
        with_id(objects.drop_last(), id).push(objects.last())
    } else {
        with_id(objects.drop_last(), id)
    }
}

impl GameState {
    /// A game with no objects, no attributes, whose first object id is 0.
    pub fn new() -> (r: Self)
        ensures
            r@ == (GameStateView { objects: Seq::empty(), attrs: Seq::empty(), object_index: 0 }),
    {
        let r = Self { objects: Vec::new(), attrs: Vec::new(), object_index: 0 };
        assert(objects_view(r.objects@) =~= Seq::<ObjectView>::empty());
        r
    }

    /// Hands out the next object id.
    pub fn generate_object_id(&mut self) -> (r: u32)
        requires
            old(self)@.object_index < u32::MAX,
        ensures
            r == old(self)@.object_index,
            final(self)@ == (GameStateView { object_index: (old(self)@.object_index + 1) as u32, ..old(self)@ }),
    {
        let id = self.object_index;
        self.object_index += 1;
        id
    }

    /// The `index`-th attribute of the game.
    pub fn attr(&self, index: usize) -> (r: Word)
        requires
            index < self@.attrs.len(),
        ensures
            r == self@.attrs[index as int],
    {
        self.attrs[index]
    }

    /// Sets the `index`-th attribute of the game.
    pub fn set_attr(&mut self, index: usize, value: Word)
        requires
            index < old(self)@.attrs.len(),
        ensures
            final(self)@ == (GameStateView { attrs: old(self)@.attrs.update(index as int, value), ..old(self)@ }),
    {
        self.attrs.set(index, value);
    }

    /// The number of objects.
    pub fn object_count(&self) -> (r: usize)
        ensures
            r == self@.objects.len(),
    {
        self.objects.len()
    }

    /// The `index`-th object.
    pub fn object(&self, index: usize) -> (r: &Object)
        requires
            index < self@.objects.len(),
        ensures
            r@ == self@.objects[index as int],
    {
        &self.objects[index]
    }

    /// Sets attribute `attr_index` of the `index`-th object.
    pub fn set_object_attr(&mut self, index: usize, attr_index: usize, value: Word)
        requires
            index < old(self)@.objects.len(),
            attr_index < old(self)@.objects[index as int].attrs.len(),
        ensures
            final(self)@ == (GameStateView {
                objects: old(self)@.objects.update(
                    index as int,
                    ObjectView {
                        attrs: old(self)@.objects[index as int].attrs.update(attr_index as int, value),
                        ..old(self)@.objects[index as int]
                    },
                ),
                ..old(self)@
            }),
    {
        let ghost objects0 = self.objects@;
        self.objects[index].set_attr(attr_index, value);
        proof {
            assert(objects_view(self.objects@) =~= objects_view(objects0).update(
                index as int,
                ObjectView {
                    attrs: objects_view(objects0)[index as int].attrs.update(attr_index as int, value),
                    ..objects_view(objects0)[index as int]
                },
            ));
        }
    }

    /// Adds an object at the end.
    pub fn push_object(&mut self, object: Object)
        ensures
            final(self)@ == (GameStateView { objects: old(self)@.objects.push(object@), ..old(self)@ }),
    {
        let ghost objects0 = self.objects@;
        self.objects.push(object);
        proof {
            assert(objects_view(self.objects@) =~= objects_view(objects0).push(object@));
        }
    }

    /// Removes and returns the `index`-th object.
    pub fn remove_object(&mut self, index: usize) -> (r: Object)
        requires
            index < old(self)@.objects.len(),
        ensures
            r@ == old(self)@.objects[index as int],
            final(self)@ == (GameStateView { objects: old(self)@.objects.remove(index as int), ..old(self)@ }),
    {
        let ghost objects0 = self.objects@;
        let r = self.objects.remove(index);
        proof {
            assert(objects_view(self.objects@) =~= objects_view(objects0).remove(index as int));
        }
        r
    }

    /// How many objects have type `t`.
    pub fn count_objects_with_type(&self, t: u32) -> (r: usize)
        ensures
            r == count_of_type(self@.objects, t),
    {
        let ghost objs = self@.objects;
        let mut count: usize = 0;
        let mut i: usize = 0;
        while i < self.objects.len()
            invariant
                i <= self.objects@.len(),
                objs == objects_view(self.objects@),
                count == count_of_type(objs.take(i as int), t),
                count <= i,
            decreases self.objects@.len() - i,
        {
            proof {
                assert(objs.take(i + 1).drop_last() =~= objs.take(i as int));
            }
            if self.objects[i].object_type() == t {
                count = count + 1;
            }
            i = i + 1;
        }
        proof {
            assert(objs.take(i as int) =~= objs);
        }
        count
    }

    /// Keeps only the objects whose id is `id`, in their order; returns how many there are.
    pub fn retain_objects_with_id(&mut self, id: u32) -> (r: usize)
        ensures
            final(self)@ == (GameStateView { objects: with_id(old(self)@.objects, id), ..old(self)@ }),
            r == with_id(old(self)@.objects, id).len(),
    {
        let ghost objs = objects_view(self.objects@);
        let mut kept: Vec<Object> = Vec::new();
        let mut i: usize = 0;
        while i < self.objects.len()
            invariant
                i <= self.objects@.len(),
                objs == objects_view(self.objects@),
                objects_view(kept@) == with_id(objs.take(i as int), id),
            decreases self.objects@.len() - i,
        {
            proof {
                assert(objs.take(i + 1).drop_last() =~= objs.take(i as int));
            }
            if self.objects[i].id() == id {
                let o = self.objects[i].duplicate();
                let ghost before = kept@;
                kept.push(o);
                proof {
                    assert(objects_view(kept@) =~= objects_view(before).push(o@));
                }
            }
            i = i + 1;
        }
        proof {
            assert(objs.take(i as int) =~= objs);
        }
        let n = kept.len();
        self.objects = kept;
        n
    }

    /// A game state made from its parts.
    pub fn from_raw_parts(objects: Vec<Object>, attrs: Vec<Word>, object_index: u32) -> (r: Self)
        ensures
            r@ == (GameStateView { objects: objects_view(objects@), attrs: attrs@, object_index }),
    {
        Self { objects, attrs, object_index }
    }
}

impl Default for GameState {
    fn default() -> (r: Self)
        ensures
            r@ == (GameStateView { objects: Seq::empty(), attrs: Seq::empty(), object_index: 0 }),
    {
        Self::new()
    }
}


/// The count of type `t` among `objects` is the number of them whose type is
/// `t`: none among no objects; adding one of type `t` raises it by one, and
/// adding one of another type leaves it as it was.
pub proof fn lemma_count_of_type_meaning(items: Seq<ObjectView>, t: u32, extra: ObjectView)
    ensures
        count_of_type(items, t) == items.filter(|c: ObjectView| c.object_type == t).len(),
        count_of_type(Seq::<ObjectView>::empty(), t) == 0,
        extra.object_type == t ==> count_of_type(items.push(extra), t) == count_of_type(items, t) + 1,
        extra.object_type != t ==> count_of_type(items.push(extra), t) == count_of_type(items, t),
        count_of_type(items, t) <= items.len(),
    decreases items.len(),
{
    reveal_with_fuel(Seq::filter, 2);
    assert(items.push(extra).drop_last() =~= items);
    if items.len() > 0 {
        lemma_count_of_type_meaning(items.drop_last(), t, items.last());
    }
}

} // verus!
