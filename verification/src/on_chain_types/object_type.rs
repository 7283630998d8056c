//! Kinds of objects, and the read-only table of them that a VM runs with.

use vstd::prelude::*;
use crate::card::EntryPoint;
use crate::rom::Error;
use crate::word::{copy_words, Word};
use crate::on_chain_types::object::{Object, ObjectView};
use crate::search::{first_index_of, lemma_first_index_of_prefix, lemma_first_index_of_step};

verus! {

/// What an [`ObjectType`] holds.
pub struct ObjectTypeView {
    pub id: u32,
    pub attrs: Seq<Word>,
    pub init_object_attrs: Seq<Word>,
    pub action_entry_points: Seq<EntryPoint>,
}

/// A kind of object: its id, its own attributes, the attributes a new object
/// of this kind starts with, and the entry points of its actions.
#[derive(Debug, Clone, PartialEq, Eq)]
pub struct ObjectType {
    id: u32,
    attrs: Vec<Word>,
    init_object_attrs: Vec<Word>,
    action_entry_points: Vec<EntryPoint>,
}

impl View for ObjectType {
    type V = ObjectTypeView;

    closed spec fn view(&self) -> ObjectTypeView {
        ObjectTypeView {
            id: self.id,
            attrs: self.attrs@,
            init_object_attrs: self.init_object_attrs@,
            action_entry_points: self.action_entry_points@,
        }
    }
}

/// The object that an object type makes with the given id.
pub open spec fn spec_instantiate_object(t: ObjectTypeView, id: u32) -> ObjectView {
    ObjectView { id, object_type: t.id, attrs: t.init_object_attrs }
}

impl ObjectType {
    /// The id of the type.
    pub fn id(&self) -> (r: u32)
        ensures
            r == self@.id,
    {
        self.id
    }

    /// The `index`-th attribute of the type.
    pub fn attr_by_index(&self, index: usize) -> (r: Word)
        requires
            index < self@.attrs.len(),
        ensures
            r == self@.attrs[index as int],
    {
        self.attrs[index]
    }

    /// A new object of this type with the given id.
    pub fn instantiate_object(&self, id: u32) -> (r: Object)
        ensures
            r@ == spec_instantiate_object(self@, id),
    {
        Object::from_raw_parts(id, self.id, copy_words(&self.init_object_attrs))
    }

    /// The entry point of the `index`-th action.
    pub fn action_entry_point(&self, index: usize) -> (r: EntryPoint)
        requires
            index < self@.action_entry_points.len(),
        ensures
            r == self@.action_entry_points[index as int],
    {
        self.action_entry_points[index]
    }

    /// An object type made from its parts.
    pub fn from_raw_parts(
        id: u32,
        attrs: Vec<Word>,
        init_object_attrs: Vec<Word>,
        action_entry_points: Vec<EntryPoint>,
    ) -> (r: Self)
        ensures
            r@ == (ObjectTypeView {
                id,
                attrs: attrs@,
                init_object_attrs: init_object_attrs@,
                action_entry_points: action_entry_points@,
            }),
    {
        Self { id, attrs, init_object_attrs, action_entry_points }
    }
}

/// The ids of a sequence of object types.
pub open spec fn object_type_ids(types: Seq<ObjectTypeView>) -> Seq<u32> {
    types.map_values(|t: ObjectTypeView| t.id)
}

/// The object types, in order.
#[derive(Debug, PartialEq, Eq)]
pub struct ObjectTypesRom<'a> {
    object_types: &'a [ObjectType],
}

impl<'a> View for ObjectTypesRom<'a> {
    type V = Seq<ObjectTypeView>;

    closed spec fn view(&self) -> Seq<ObjectTypeView> {
        self.object_types@.map_values(|t: ObjectType| t@)
    }
}

impl<'a> ObjectTypesRom<'a> {
    /// The number of object types.
    pub fn object_type_count(&self) -> (r: usize)
        ensures
            r == self@.len(),
    {
        self.object_types.len()
    }

    /// The object type at `type_index`.
    pub fn object_type_by_type_index(&self, type_index: usize) -> (r: &ObjectType)
        requires
            type_index < self@.len(),
        ensures
            r@ == self@[type_index as int],
    {
        &self.object_types[type_index]
    }

    fn find_type_id(&self, type_id: u32) -> (r: Option<usize>)
        ensures
            r matches Some(i) ==> i < self@.len() && first_index_of(object_type_ids(self@), type_id) == Some(i as int),
            r is None ==> first_index_of(object_type_ids(self@), type_id) is None,
    {
        let ghost ids = object_type_ids(self@);
        let mut i: usize = 0;
        while i < self.object_types.len()
            invariant
                i <= self.object_types@.len(),
                ids == object_type_ids(self@),
                ids.len() == self.object_types@.len(),
                first_index_of(ids.take(i as int), type_id) is None,
            decreases self.object_types@.len() - i,
        {
            proof {
                lemma_first_index_of_step(ids, i as int, type_id);
            }
            if self.object_types[i].id() == type_id {
                proof {
                    lemma_first_index_of_prefix(ids, i + 1, type_id);
                }
                assert(i < self@.len());
                return Some(i);
            }
            i = i + 1;
        }
        proof {
            assert(ids.take(i as int) =~= ids);
        }
        None
    }

    /// The first object type with id `type_id`, if any.
    pub fn object_type_by_type_id(&self, type_id: u32) -> (r: Option<&ObjectType>)
        ensures
            match first_index_of(object_type_ids(self@), type_id) {
                Some(i) => r matches Some(t) && t@ == self@[i],
                None => r is None,
            },
    {
        match self.find_type_id(type_id) {
            Some(i) => Some(&self.object_types[i]),
            None => None,
        }
    }

    /// A new object with id `object_id` of the first object type with id `type_id`.
    pub fn instance_object_by_type_id(&self, type_id: u32, object_id: u32) -> (r: Result<Object, Error>)
        ensures
            match first_index_of(object_type_ids(self@), type_id) {
                Some(i) => r matches Ok(o) && o@ == spec_instantiate_object(self@[i], object_id),
                None => r == Err::<Object, Error>(Error::NoSuchTypeId(type_id)),
            },
    {
        match self.find_type_id(type_id) {
            Some(i) => Ok(self.object_types[i].instantiate_object(object_id)),
            None => Err(Error::NoSuchTypeId(type_id)),
        }
    }

    /// A new object with id `object_id` of the object type at `type_index`.
    pub fn instance_object_by_type_index(&self, type_index: u32, object_id: u32) -> (r: Result<Object, Error>)
        ensures
            type_index < self@.len() ==> (r matches Ok(o) && o@ == spec_instantiate_object(
                self@[type_index as int],
                object_id,
            )),
            type_index >= self@.len() ==> r == Err::<Object, Error>(Error::TypeIndexOutOfBounds {
                index: type_index,
                len: self@.len() as u32,
            }),
    {
        let index: usize = type_index as usize;
        if index < self.object_types.len() {
            Ok(self.object_types[index].instantiate_object(object_id))
        } else {
            Err(Error::TypeIndexOutOfBounds { index: type_index, len: self.object_types.len() as u32 })
        }
    }

    /// The table over the given object types.
    pub fn from_raw_parts(object_types: &'a [ObjectType]) -> (r: Self)
        ensures
            r@ == object_types@.map_values(|t: ObjectType| t@),
    {
        Self { object_types }
    }
}

} // verus!
