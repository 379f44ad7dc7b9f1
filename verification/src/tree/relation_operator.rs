use vstd::prelude::*;

verus! {

/// The type of the relationship, from the TREE vocabulary
/// (https://treecg.github.io/specification/#vocabulary).
#[derive(Copy, Clone, Debug, PartialEq, Eq)]
pub enum RelationOperator {
    /// All elements in the related node have this prefix.
    PrefixRelation,
    /// All elements in the related node have this substring.
    SubstringRelation,
    /// All members of this related node end with this suffix.
    SuffixRelation,
    /// The related node's members are greater than the value. For string comparison,
    /// this relation can refer to a comparison configuration.
    GreaterThanRelation,
    /// Similar to GreaterThanRelation.
    GreaterThanOrEqualToRelation,
    /// Similar to GreaterThanRelation.
    LessThanRelation,
    /// Similar to GreaterThanRelation.
    LessThanOrEqualToRelation,
    /// Similar to GreaterThanRelation.
    EqualThanRelation,
    /// A contains b iff no points of b lie in the exterior of a, and at least one
    /// point of the interior of b lies in the interior of a.
    GeospatiallyContainsRelation,
}

impl RelationOperator {
    /// The vocabulary URI of this operator.
    pub open spec fn uri_spec(self) -> Seq<char> {
        match self {
            RelationOperator::PrefixRelation => "https://w3id.org/tree#PrefixRelation"@,
            RelationOperator::SubstringRelation => "https://w3id.org/tree#SubstringRelation"@,
            RelationOperator::SuffixRelation => "https://w3id.org/tree#SuffixRelation"@,
            RelationOperator::GreaterThanRelation => "https://w3id.org/tree#GreaterThanRelation"@,
            RelationOperator::GreaterThanOrEqualToRelation => "https://w3id.org/tree#GreaterThanOrEqualToRelation"@,
            RelationOperator::LessThanRelation => "https://w3id.org/tree#LessThanRelation"@,
            RelationOperator::LessThanOrEqualToRelation => "https://w3id.org/tree#LessThanOrEqualToRelation"@,
            RelationOperator::EqualThanRelation => "https://w3id.org/tree#EqualThanRelation"@,
            RelationOperator::GeospatiallyContainsRelation => "https://w3id.org/tree#GeospatiallyContainsRelation"@,
        }
    }

    /// The vocabulary URI of this operator, as a string.
    pub fn uri(&self) -> (r: String)
        ensures
            r@ == self.uri_spec(),
    {
        match self {
            RelationOperator::PrefixRelation => String::from_str(
                "https://w3id.org/tree#PrefixRelation",
            ),
            RelationOperator::SubstringRelation => String::from_str(
                "https://w3id.org/tree#SubstringRelation",
            ),
            RelationOperator::SuffixRelation => String::from_str(
                "https://w3id.org/tree#SuffixRelation",
            ),
            RelationOperator::GreaterThanRelation => String::from_str(
                "https://w3id.org/tree#GreaterThanRelation",
            ),
            RelationOperator::GreaterThanOrEqualToRelation => String::from_str(
                "https://w3id.org/tree#GreaterThanOrEqualToRelation",
            ),
            RelationOperator::LessThanRelation => String::from_str(
                "https://w3id.org/tree#LessThanRelation",
            ),
            RelationOperator::LessThanOrEqualToRelation => String::from_str(
                "https://w3id.org/tree#LessThanOrEqualToRelation",
            ),
            RelationOperator::EqualThanRelation => String::from_str(
                "https://w3id.org/tree#EqualThanRelation",
            ),
            RelationOperator::GeospatiallyContainsRelation => String::from_str(
                "https://w3id.org/tree#GeospatiallyContainsRelation",
            ),
        }
    }
}

} // verus!
