use std::collections::HashSet;

use tree_relation_generator::generate_relation::{
    generate_n_relation_from_a_template, generate_relations,
    handle_the_distribution_of_the_relation, MockRangeGenerator,
};
use tree_relation_generator::generator_argument::range::RandomBoundedNumberRange;
use tree_relation_generator::generator_argument::relation_argument::{
    DistributionOfRelation, RelationGeneratorArg, RelationTemplate, TemplateRangeVariationRelation,
};
use tree_relation_generator::generator_argument::{Args, RangeParameter};
use tree_relation_generator::generate_tree_document;
use tree_relation_generator::sparql_converter::ConversionError;
use tree_relation_generator::tree::relation::Relation;
use tree_relation_generator::tree::relation_operator::RelationOperator;
use tree_relation_generator::tree::value::ValueType;

fn a_template_relation() -> RelationTemplate {
    RelationTemplate {
        path: String::from("ex:path"),
        relation_type: RelationOperator::EqualThanRelation,
    }
}

fn a_base_url() -> String {
    String::from("https://example.com")
}

#[test]
fn a_direct_argument_passes_through_unchanged_even_when_empty() {
    let groups: Vec<Vec<Relation>> = Vec::new();
    let arg: RelationGeneratorArg<i64> = RelationGeneratorArg::Direct(groups.clone());
    let resp = generate_relations(arg, &a_base_url()).unwrap();
    assert_eq!(resp, groups);
}

#[test]
fn a_direct_distribution_of_one_two_three_gives_three_groups_of_those_sizes() {
    let template_arg = TemplateRangeVariationRelation {
        template: a_template_relation(),
        range: Box::new(MockRangeGenerator { val: 9i64 }),
        distribution_of_relation: DistributionOfRelation::Direct(vec![1, 2, 3]),
        value_type: ValueType::Integer,
    };
    let response = handle_the_distribution_of_the_relation(&template_arg, &a_base_url()).unwrap();
    assert_eq!(response.len(), 3);
    assert_eq!(response[0].len(), 1);
    assert_eq!(response[1].len(), 2);
    assert_eq!(response[2].len(), 3);
}

#[test]
fn an_empty_direct_distribution_gives_no_groups() {
    let template_arg = TemplateRangeVariationRelation {
        template: a_template_relation(),
        range: Box::new(MockRangeGenerator { val: 9i64 }),
        distribution_of_relation: DistributionOfRelation::Direct(Vec::new()),
        value_type: ValueType::Integer,
    };
    let response = handle_the_distribution_of_the_relation(&template_arg, &a_base_url()).unwrap();
    assert_eq!(response.len(), 0);
}

#[test]
fn a_zero_count_in_a_direct_distribution_gives_an_empty_group() {
    let template_arg = TemplateRangeVariationRelation {
        template: a_template_relation(),
        range: Box::new(MockRangeGenerator { val: 9i64 }),
        distribution_of_relation: DistributionOfRelation::Direct(vec![0, 2]),
        value_type: ValueType::Integer,
    };
    let response = handle_the_distribution_of_the_relation(&template_arg, &a_base_url()).unwrap();
    assert_eq!(response.len(), 2);
    assert_eq!(response[0].len(), 0);
    assert_eq!(response[1].len(), 2);
}

#[test]
fn a_constant_random_distribution_of_seven_groups_gives_seven_groups_of_four() {
    let template_arg = TemplateRangeVariationRelation {
        template: a_template_relation(),
        range: Box::new(MockRangeGenerator { val: 9i64 }),
        distribution_of_relation: DistributionOfRelation::Random(
            Box::new(MockRangeGenerator { val: 4usize }),
            7,
        ),
        value_type: ValueType::Integer,
    };
    let response = handle_the_distribution_of_the_relation(&template_arg, &a_base_url()).unwrap();
    assert_eq!(response.len(), 7);
    for group in response.iter() {
        assert_eq!(group.len(), 4);
    }
}

#[test]
fn a_hundred_relations_from_one_template_share_no_node_url() {
    let response = generate_n_relation_from_a_template(
        100,
        &a_template_relation(),
        &a_base_url(),
        ValueType::Integer,
        &MockRangeGenerator { val: 5i64 },
    )
    .unwrap();
    let mut seen: HashSet<String> = HashSet::new();
    for relation in response.iter() {
        assert!(seen.insert(relation.node().clone()));
        assert!(relation.node().starts_with("https://example.com/"));
        assert_eq!(relation.node().len(), a_base_url().len() + 1 + 36);
    }
}

#[test]
fn an_incompatible_kind_fails_the_whole_run_with_the_kind_error() {
    let template_arg = TemplateRangeVariationRelation {
        template: a_template_relation(),
        range: Box::new(MockRangeGenerator { val: 9i64 }),
        distribution_of_relation: DistributionOfRelation::Direct(vec![3, 1]),
        value_type: ValueType::String,
    };
    let result = handle_the_distribution_of_the_relation(&template_arg, &a_base_url());
    assert_eq!(result.unwrap_err(), ConversionError::UnsupportedKind);
}

#[test]
fn a_bounded_usize_range_draws_within_its_bounds() {
    let range = RandomBoundedNumberRange::new(5usize, 10usize);
    for _ in 0..100 {
        let drawn = range.next();
        assert!((5..10).contains(&drawn));
    }
}

#[test]
fn a_bounded_i64_range_draws_within_its_bounds() {
    let range = RandomBoundedNumberRange::new(-5i64, 5i64);
    for _ in 0..100 {
        let drawn = range.next();
        assert!((-5..5).contains(&drawn));
    }
}

#[test]
fn a_degenerate_bounded_range_hands_out_its_only_bound() {
    let range = RandomBoundedNumberRange::new(8usize, 8usize);
    assert_eq!(range.next(), 8);
}

#[test]
fn a_generated_relation_carries_the_drawn_value_as_its_literal() {
    let response = generate_n_relation_from_a_template(
        2,
        &a_template_relation(),
        &a_base_url(),
        ValueType::Long,
        &MockRangeGenerator { val: -37i64 },
    )
    .unwrap();
    for relation in response.iter() {
        let value = relation.value().clone().unwrap();
        assert_eq!(value.value, "-37");
        assert_eq!(value.value_type, ValueType::Long);
    }
}

#[test]
fn the_tree_document_holds_no_nodes_yet() {
    let args: Args<i64> = Args {
        relation: RelationGeneratorArg::Direct(Vec::new()),
        base_url: a_base_url(),
    };
    let document = generate_tree_document(args);
    assert!(document.is_empty());
}
