//! A tree of game data: objects identified by ids, whose attributes are
//! named nodes holding numbers, booleans, objects, lists of objects, or maps
//! of further nodes.

use vstd::prelude::*;
use std::collections::BTreeMap;

verus! {

/// An object of the game: its id, the id of its parent, and its attributes.
#[derive(Debug, Eq, Ord, PartialEq, PartialOrd, Hash)]
pub struct GameObject {
    uuid: Uuid,
    parent: Uuid,
    attributes: Node,
}

/// A named value.
#[derive(Debug, Eq, Ord, PartialEq, PartialOrd, Hash)]
pub struct Node {
    ident: String,
    value: NodeValue,
}

/// What a node holds.
#[derive(Debug, Eq, Ord, PartialEq, PartialOrd, Hash)]
pub enum NodeValue {
    Int(i32),
    Bool(bool),
    Object(Box<GameObject>),
    ObjectArray(Vec<GameObject>),
    NodeMap(BTreeMap<String, Node>),
}

/// A 32-byte id.
#[derive(Debug, Eq, Ord, PartialEq, PartialOrd, Hash)]
pub struct Uuid([u8; 32]);

} // verus!
