//! The relation generation engine: it turns a generator argument into nested
//! groups of uniquely addressed relation instances.

use vstd::prelude::*;

use crate::generator_argument::relation_argument::{
    DistributionOfRelation, RelationGeneratorArg, RelationTemplate, TemplateRangeVariationRelation,
};
use crate::generator_argument::RangeParameter;
use crate::numeric::NumericOperand;
use crate::sparql_converter::{
    number_literal, ConversionError, NumberToSparqlConverter, SparqlConverter,
};
use crate::tree::relation::Relation;
use crate::tree::value::{Value, ValueType};

verus! {

/// A freshly minted node URL: the base URL, a slash, and a 36-character
/// identifier.
pub open spec fn minted_node_url(node: Seq<char>, base_url: Seq<char>) -> bool {
    exists|id: Seq<char>| id.len() == 36 && node == base_url + seq!['/'] + id
}

/// The shape shared by every relation generated from a template: no remaining
/// items, the template's path and operator, a minted node URL, and a value of
/// the requested kind.
pub open spec fn relation_matches_template(
    rel: Relation,
    template: RelationTemplate,
    value_type: ValueType,
    base_url: Seq<char>,
) -> bool {
    &&& rel.remaning_items is None
    &&& rel.path == Some(template.path)
    &&& rel.relation_type == Some(template.relation_type)
    &&& minted_node_url(rel.node@, base_url)
    &&& rel.value is Some
    &&& rel.value->Some_0.value_type == value_type
}

/// The relation's literal converts, under the requested kind, from some value
/// the range parameter may hand out.
pub open spec fn value_from_range<T: NumericOperand, R: RangeParameter<T>>(
    rel: Relation,
    range: R,
    value_type: ValueType,
) -> bool {
    exists|v: T| #[trigger] range.can_yield(v) && number_literal(v, value_type) == Ok::<
        Seq<char>,
        ConversionError,
    >(rel.value->Some_0.value@)
}

/// Some value the range parameter may hand out fails to convert under the
/// requested kind, with this error.
pub open spec fn conversion_fails<T: NumericOperand, R: RangeParameter<T>>(
    range: R,
    value_type: ValueType,
    e: ConversionError,
) -> bool {
    exists|v: T| #[trigger] range.can_yield(v) && number_literal(v, value_type) == Err::<
        Seq<char>,
        ConversionError,
    >(e)
}

/// How many relations stand in each group, according to the distribution.
pub open spec fn groups_follow_distribution(
    groups: Seq<Vec<Relation>>,
    distribution: DistributionOfRelation,
) -> bool {
    match distribution {
        DistributionOfRelation::Direct(counts) => {
            &&& groups.len() == counts@.len()
            &&& forall|i: int| 0 <= i < groups.len() ==> (#[trigger] groups[i])@.len() == counts@[i]
        },
        DistributionOfRelation::Random(count_range, n) => {
            &&& groups.len() == n
            &&& forall|i: int|
                0 <= i < groups.len() ==> count_range.can_yield(
                    (#[trigger] groups[i])@.len() as usize,
                )
        },
    }
}

/// The engine's promise for a templated generation run: on success the groups
/// follow the distribution and every relation matches the template with a
/// value drawn from the range; on failure some drawable value refuses to
/// convert with exactly the returned error, and nothing is handed back.
pub open spec fn generation_result_valid<T: NumericOperand>(
    r: Result<Vec<Vec<Relation>>, ConversionError>,
    template: TemplateRangeVariationRelation<T>,
    base_url: Seq<char>,
) -> bool {
    match r {
        Ok(groups) => {
            &&& groups_follow_distribution(groups@, template.distribution_of_relation)
            &&& forall|i: int, j: int|
                0 <= i < groups@.len() && 0 <= j < groups@[i]@.len() ==> {
                    &&& relation_matches_template(
                        #[trigger] groups@[i]@[j],
                        template.template,
                        template.value_type,
                        base_url,
                    )
                    &&& value_from_range(groups@[i]@[j], template.range, template.value_type)
                }
        },
        Err(e) => conversion_fails(template.range, template.value_type, e),
    }
}

/// Law: when every value the range may hand out refuses to convert under the
/// configured kind, and the distribution directly demands at least one
/// relation, a run meeting the engine's promise fails — it hands back the
/// conversion error and no partial groups.
pub proof fn lemma_fail_fast<T: NumericOperand>(
    r: Result<Vec<Vec<Relation>>, ConversionError>,
    template: TemplateRangeVariationRelation<T>,
    base_url: Seq<char>,
)
    requires
        generation_result_valid(r, template, base_url),
        forall|v: T| #[trigger]
            template.range.can_yield(v) ==> number_literal(v, template.value_type) is Err,
        template.distribution_of_relation matches DistributionOfRelation::Direct(counts)
            && exists|i: int| 0 <= i < counts@.len() && counts@[i] > 0,
    ensures
        r is Err,
{
    match r {
        Ok(groups) => {
            let counts = template.distribution_of_relation->Direct_0;
            let i = choose|i: int| 0 <= i < counts@.len() && counts@[i] > 0;
            assert(groups@[i]@.len() == counts@[i]);
            assert(value_from_range(groups@[i]@[0], template.range, template.value_type));
            let v = choose|v: T|
                #[trigger] template.range.can_yield(v) && number_literal(v, template.value_type)
                    == Ok::<Seq<char>, ConversionError>(groups@[i]@[0].value->Some_0.value@);
            assert(number_literal(v, template.value_type) is Err);
            assert(false);
        },
        Err(_) => {},
    }
}

/// Generate the relations from the generator argument.
pub fn generate_relations<T: NumericOperand>(
    relation_args: RelationGeneratorArg<T>,
    base_url: &String,
) -> (r: Result<Vec<Vec<Relation>>, ConversionError>)
    ensures
        relation_args matches RelationGeneratorArg::Direct(groups) ==> r == Ok::<
            Vec<Vec<Relation>>,
            ConversionError,
        >(groups),
        relation_args matches RelationGeneratorArg::ValueVariation(template)
            ==> generation_result_valid(r, template, base_url@),
{
    match relation_args {
        RelationGeneratorArg::Direct(r) => Ok(r),
        RelationGeneratorArg::ValueVariation(template) => handle_the_distribution_of_the_relation(
            &template,
            base_url,
        ),
    }
}

/// Select the right way to handle the distribution of the relations.
pub fn handle_the_distribution_of_the_relation<T: NumericOperand>(
    template: &TemplateRangeVariationRelation<T>,
    base_url: &String,
) -> (r: Result<Vec<Vec<Relation>>, ConversionError>)
    ensures
        generation_result_valid(r, *template, base_url@),
{
    let mut relations: Vec<Vec<Relation>> = Vec::new();
    match &template.distribution_of_relation {
        DistributionOfRelation::Direct(dist) => {
            for idx in 0..dist.len()
                invariant
                    relations@.len() == idx,
                    forall|i: int|
                        0 <= i < idx ==> (#[trigger] relations@[i])@.len() == dist@[i],
                    forall|i: int, j: int|
                        0 <= i < idx && 0 <= j < relations@[i]@.len() ==> {
                            &&& relation_matches_template(
                                #[trigger] relations@[i]@[j],
                                template.template,
                                template.value_type,
                                base_url@,
                            )
                            &&& value_from_range(
                                relations@[i]@[j],
                                template.range,
                                template.value_type,
                            )
                        },
            {
                match generate_n_relation_from_a_template(
                    dist[idx],
                    &template.template,
                    base_url,
                    template.value_type,
                    &template.range,
                ) {
                    Ok(v) => relations.push(v),
                    Err(e) => return Err(e),
                };
            }
            Ok(relations)
        },
        DistributionOfRelation::Random(range_fn, n) => {
            for idx in 0..*n
                invariant
                    relations@.len() == idx,
                    forall|i: int|
                        0 <= i < idx ==> range_fn.can_yield(
                            (#[trigger] relations@[i])@.len() as usize,
                        ),
                    forall|i: int, j: int|
                        0 <= i < idx && 0 <= j < relations@[i]@.len() ==> {
                            &&& relation_matches_template(
                                #[trigger] relations@[i]@[j],
                                template.template,
                                template.value_type,
                                base_url@,
                            )
                            &&& value_from_range(
                                relations@[i]@[j],
                                template.range,
                                template.value_type,
                            )
                        },
            {
                let n_relation: usize = range_fn.next();
                match generate_n_relation_from_a_template(
                    n_relation,
                    &template.template,
                    base_url,
                    template.value_type,
                    &template.range,
                ) {
                    Ok(v) => relations.push(v),
                    Err(e) => return Err(e),
                };
            }
            Ok(relations)
        },
    }
}

/// Helper function to generate `n` relations from one template.
pub fn generate_n_relation_from_a_template<T: NumericOperand, R: RangeParameter<T>>(
    n: usize,
    template_relation: &RelationTemplate,
    base_url: &String,
    value_type: ValueType,
    range_value_fn: &R,
) -> (r: Result<Vec<Relation>, ConversionError>)
    ensures
        r matches Ok(rels) ==> {
            &&& rels@.len() == n
            &&& forall|j: int|
                0 <= j < n ==> relation_matches_template(
                    #[trigger] rels@[j],
                    *template_relation,
                    value_type,
                    base_url@,
                ) && value_from_range(rels@[j], *range_value_fn, value_type)
        },
        r matches Err(e) ==> conversion_fails(*range_value_fn, value_type, e),
{
    let mut current_relation: Vec<Relation> = Vec::new();
    for idx in 0..n
        invariant
            current_relation@.len() == idx,
            forall|j: int|
                0 <= j < idx ==> relation_matches_template(
                    #[trigger] current_relation@[j],
                    *template_relation,
                    value_type,
                    base_url@,
                ) && value_from_range(current_relation@[j], *range_value_fn, value_type),
    {
        match generate_a_relation_from_template(
            template_relation,
            base_url,
            value_type,
            range_value_fn,
            &NumberToSparqlConverter,
        ) {
            Ok(v) => current_relation.push(v),
            Err(e) => return Err(e),
        }
    }
    Ok(current_relation)
}

/// Generate a single relation from the template and the range generator.
pub fn generate_a_relation_from_template<
    T: NumericOperand,
    R: RangeParameter<T>,
    C: SparqlConverter<T>,
>(
    template_relation: &RelationTemplate,
    base_url: &String,
    value_type: ValueType,
    range_value_fn: &R,
    sparql_converter: &C,
) -> (r: Result<Relation, ConversionError>)
    ensures
        r matches Ok(rel) ==> {
            &&& relation_matches_template(rel, *template_relation, value_type, base_url@)
            &&& exists|v: T|
                #[trigger] range_value_fn.can_yield(v) && sparql_converter.convert_spec(
                    v,
                    value_type,
                ) == Ok::<Seq<char>, ConversionError>(rel.value->Some_0.value@)
        },
        r matches Err(e) ==> exists|v: T|
            #[trigger] range_value_fn.can_yield(v) && sparql_converter.convert_spec(v, value_type)
                == Err::<Seq<char>, ConversionError>(e),
{
    let value = range_value_fn.next();
    let ghost drawn = value;
    let relation_value = match sparql_converter.convert(value, value_type) {
        Ok(v) => Value { value: v, value_type: value_type },
        Err(e) => return Err(e),
    };
    let node_url = mint_node_url(base_url);
    Ok(
        Relation::new(
            None,
            Some(template_relation.path.clone()),
            Some(relation_value),
            node_url,
            Some(template_relation.relation_type),
        ),
    )
}

/// Mint the node URL of one relation: the base URL, a slash, and a fresh
/// identifier.
fn mint_node_url(base_url: &String) -> (r: String)
    ensures
        minted_node_url(r@, base_url@),
{
    let id = fresh_identifier();
    let mut url = base_url.clone();
    url.append("/");
    url.append(id.as_str());
    proof {
        reveal_strlit("/");
        assert("/"@ =~= seq!['/']);
        assert(url@ =~= base_url@ + seq!['/'] + id@);
        assert(id@.len() == 36 && url@ == base_url@ + seq!['/'] + id@);
    }
    url
}

/// Relies on uuid's `Uuid::new_v4` and its `Display` rendering: a freshly
/// drawn random identifier in the 36-character hyphenated form.
#[verifier::external_body]
fn fresh_identifier() -> (r: String)
    ensures
        r@.len() == 36,
{
    uuid::Uuid::new_v4().to_string()
}

/// Range generator that always hands out one preset value.
pub struct MockRangeGenerator<T> {
    pub val: T,
}

impl<T: Copy> RangeParameter<T> for MockRangeGenerator<T> {
    open spec fn can_yield(&self, value: T) -> bool {
        value == self.val
    }

    fn next(&self) -> (value: T) {
        self.val
    }
}

/// Converter that succeeds with a fixed literal or fails, according to a
/// preset flag.
pub struct MockSparqlConverter {
    pub success: bool,
}

impl<T> SparqlConverter<T> for MockSparqlConverter {
    open spec fn convert_spec(&self, value: T, value_type: ValueType) -> Result<
        Seq<char>,
        ConversionError,
    > {
        if self.success {
            Ok("valid"@)
        } else {
            Err(ConversionError::UnsupportedKind)
        }
    }

    fn convert(&self, _value: T, _value_type: ValueType) -> (r: Result<String, ConversionError>) {
        if self.success {
            Ok(String::from_str("valid"))
        } else {
            Err(ConversionError::UnsupportedKind)
        }
    }
}

} // verus!
