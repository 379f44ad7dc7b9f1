//! The declarative description of what a generation run should produce.

use vstd::prelude::*;

use crate::generator_argument::RangeParameter;
use crate::tree::relation::Relation;
use crate::tree::relation_operator::RelationOperator;
use crate::tree::shacl_path::ShaclPath;
use crate::tree::value::ValueType;

verus! {

/// The type of TREE relation generator.
#[verifier::reject_recursive_types(T)]
pub enum RelationGeneratorArg<T> {
    /// Generate the exact relations dictated by the user.
    Direct(Vec<Vec<Relation>>),
    /// Generate the [`Relation`] based on a template and make the [`Relation`]
    /// value vary following a [`RangeParameter`].
    ValueVariation(TemplateRangeVariationRelation<T>),
}

/// A relation template together with the strategies that vary it.
#[verifier::reject_recursive_types(T)]
pub struct TemplateRangeVariationRelation<T> {
    /// Template of the [`Relation`].
    pub template: RelationTemplate,
    /// Range of the selected property.
    pub range: Box<dyn RangeParameter<T>>,
    /// Distribution of the [`Relation`] inside the node.
    pub distribution_of_relation: DistributionOfRelation,
    /// Value type of the [`Relation`].
    pub value_type: ValueType,
}

/// Distribution of the [`Relation`] inside the node.
pub enum DistributionOfRelation {
    /// Directly set the number of relations by node.
    Direct(Vec<usize>),
    /// Set a random number of relations using a [`RangeParameter`] with a
    /// number of nodes.
    Random(Box<dyn RangeParameter<usize>>, usize),
}

/// The template of a relation.
pub struct RelationTemplate {
    /// A property path, as defined by SHACL, that indicates what resource the
    /// value affects.
    pub path: ShaclPath,
    /// The type of the relationship.
    pub relation_type: RelationOperator,
}

} // verus!
