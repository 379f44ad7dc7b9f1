//! Generation engine for TREE hypermedia test fixtures: it turns a compact
//! generator argument (literal relations, or a template plus a value range and
//! a fan-out distribution) into nested groups of uniquely addressed relation
//! records, with type-checked numeric-to-literal conversion.

use vstd::prelude::*;

pub mod decimal;
pub mod generate_relation;
pub mod generator_argument;
pub mod numeric;
pub mod sparql_converter;
pub mod tree;

use crate::generate_relation::generate_relations;
use crate::generator_argument::Args;
use crate::numeric::NumericOperand;
use crate::tree::node::Node;

verus! {

/// Generate a TREE document from the user's arguments. Assembling the relations
/// into node documents is the business of an outside collaborator, so the
/// document itself holds no nodes yet.
pub fn generate_tree_document<T: NumericOperand>(args: Args<T>) -> (doc: Vec<Node>)
    ensures
        doc@ == Seq::<Node>::empty(),
{
    let tree_document: Vec<Node> = Vec::new();
    let _relations = generate_relations(args.relation, &args.base_url);
    tree_document
}

} // verus!
