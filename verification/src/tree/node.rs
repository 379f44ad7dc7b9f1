use vstd::prelude::*;

use crate::tree::member::Member;
use crate::tree::relation::Relation;

verus! {

/// A TREE HTTP document with relationships.
#[derive(Clone)]
pub struct Node {
    /// All available relationships in the node.
    pub relation: Vec<Relation>,
    /// Page URL that identifies this node.
    pub node_url: String,
    /// The [members](`Member`) into this node.
    pub members: Vec<Member>,
}

impl Node {
    /// Construct a node from its parts.
    pub fn new(relation: Vec<Relation>, node_url: String, members: Vec<Member>) -> (r: Node)
        ensures
            r == (Node { relation, node_url, members }),
    {
        Node { relation, node_url, members }
    }

    /// All available relationships in the node.
    pub fn relation(&self) -> (r: &Vec<Relation>)
        ensures
            *r == self.relation,
    {
        &self.relation
    }

    /// Page URL that identifies this node.
    pub fn node_url(&self) -> (r: &String)
        ensures
            *r == self.node_url,
    {
        &self.node_url
    }

    /// The members into this node.
    pub fn members(&self) -> (r: &Vec<Member>)
        ensures
            *r == self.members,
    {
        &self.members
    }
}

} // verus!
