//! An object of the game state.

use vstd::prelude::*;
use crate::word::Word;

verus! {

/// What an [`Object`] holds.
pub struct ObjectView {
    pub id: u32,
    pub object_type: u32,
    pub attrs: Seq<Word>,
}

/// An object of the game: its id, the id of its type and its attributes.
#[derive(Debug, Clone, PartialEq, Eq)]
pub struct Object {
    id: u32,
    object_type: u32,
    pub attrs: Vec<Word>,
}

impl View for Object {
    type V = ObjectView;

    closed spec fn view(&self) -> ObjectView {
        ObjectView { id: self.id, object_type: self.object_type, attrs: self.attrs@ }
    }
}

impl Object {
    /// The object's id.
    pub fn id(&self) -> (r: u32)
        ensures
            r == self@.id,
    {
        self.id
    }

    /// The id of the object's type.
    pub fn object_type(&self) -> (r: u32)
        ensures
            r == self@.object_type,
    {
        self.object_type
    }

    /// An object with the given id, type id and attributes.
    pub fn from_raw_parts(id: u32, object_type: u32, attrs: Vec<Word>) -> (r: Self)
        ensures
            r@ == (ObjectView { id, object_type, attrs: attrs@ }),
    {
        Self { id, object_type, attrs }
    }

    /// The `index`-th attribute.
    pub fn attr(&self, index: usize) -> (r: Word)
        requires
            index < self@.attrs.len(),
        ensures
            r == self@.attrs[index as int],
    {
        self.attrs[index]
    }

    /// A copy of the object.
    pub fn duplicate(&self) -> (r: Object)
        ensures
            r@ == self@,
    {
        Object { id: self.id, object_type: self.object_type, attrs: crate::word::copy_words(&self.attrs) }
    }

    /// Sets the `index`-th attribute.
    pub fn set_attr(&mut self, index: usize, value: Word)
        requires
            index < old(self)@.attrs.len(),
        ensures
            final(self)@ == (ObjectView { attrs: old(self)@.attrs.update(index as int, value), ..old(self)@ }),
    {
        self.attrs.set(index, value);
    }
}

/// The views of a sequence of objects.
pub open spec fn objects_view(objects: Seq<Object>) -> Seq<ObjectView> {
    objects.map_values(|o: Object| o@)
}

} // verus!
