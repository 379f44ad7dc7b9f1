use vstd::prelude::*;

use crate::tree::relation_operator::RelationOperator;
use crate::tree::shacl_path::ShaclPath;
use crate::tree::value::Value;

verus! {

/// Represents a relationship between the members across two nodes.
#[derive(Clone, Debug, PartialEq, Eq)]
pub struct Relation {
    /// How many members can be reached when following this relation.
    pub remaning_items: Option<i32>,
    /// A property path, as defined by SHACL, that indicates what resource the
    /// value affects.
    pub path: Option<ShaclPath>,
    /// The contextual value of this node.
    pub value: Option<Value>,
    /// Link to the TREE node document for this relationship.
    pub node: String,
    /// The type of the relationship.
    pub relation_type: Option<RelationOperator>,
}

impl Relation {
    /// Construct a relation from its parts.
    pub fn new(
        remaning_items: Option<i32>,
        path: Option<ShaclPath>,
        value: Option<Value>,
        node: String,
        relation_type: Option<RelationOperator>,
    ) -> (r: Relation)
        ensures
            r == (Relation { remaning_items, path, value, node, relation_type }),
    {
        Relation { remaning_items, path, value, node, relation_type }
    }

    /// How many members can be reached when following this relation.
    pub fn remaning_items(&self) -> (r: &Option<i32>)
        ensures
            *r == self.remaning_items,
    {
        &self.remaning_items
    }

    /// The property path this relation's value applies to.
    pub fn path(&self) -> (r: &Option<ShaclPath>)
        ensures
            *r == self.path,
    {
        &self.path
    }

    /// The contextual value of this node.
    pub fn value(&self) -> (r: &Option<Value>)
        ensures
            *r == self.value,
    {
        &self.value
    }

    /// Link to the TREE node document for this relationship.
    pub fn node(&self) -> (r: &String)
        ensures
            *r == self.node,
    {
        &self.node
    }

    /// The type of the relationship.
    pub fn relation_type(&self) -> (r: &Option<RelationOperator>)
        ensures
            *r == self.relation_type,
    {
        &self.relation_type
    }
}

} // verus!
