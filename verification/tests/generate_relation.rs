use std::collections::HashSet;

use tree_relation_generator::generate_relation::{
    generate_a_relation_from_template, generate_n_relation_from_a_template,
    handle_the_distribution_of_the_relation, MockRangeGenerator, MockSparqlConverter,
};
use tree_relation_generator::generator_argument::relation_argument::{
    DistributionOfRelation, RelationTemplate, TemplateRangeVariationRelation,
};
use tree_relation_generator::tree::relation_operator::RelationOperator;
use tree_relation_generator::tree::shacl_path::ShaclPath;
use tree_relation_generator::tree::value::ValueType;

fn a_path() -> ShaclPath {
    String::from("ex:path")
}

fn a_relation_type() -> RelationOperator {
    RelationOperator::EqualThanRelation
}

fn a_template_relation() -> RelationTemplate {
    RelationTemplate { path: a_path(), relation_type: a_relation_type() }
}

fn a_base_url() -> String {
    String::from("https://example.com")
}

#[test]
fn should_return_the_right_relation_given_a_valid_value_type() {
    let value_type = ValueType::Int;
    let relation = generate_a_relation_from_template(
        &a_template_relation(),
        &a_base_url(),
        value_type,
        &MockRangeGenerator { val: 8 },
        &MockSparqlConverter { success: true },
    )
    .unwrap();

    assert_eq!(*relation.remaning_items(), None);
    assert_eq!(*relation.path(), Some(a_path()));
    assert_eq!(*relation.relation_type(), Some(a_relation_type()));
}

#[test]
fn should_return_an_error_when_the_value_type_is_incompatible_with_the_value_type() {
    let value_type = ValueType::Boolean;
    generate_a_relation_from_template(
        &a_template_relation(),
        &a_base_url(),
        value_type,
        &MockRangeGenerator { val: 8 },
        &MockSparqlConverter { success: false },
    )
    .expect_err("should return an error when the type is not compatible with the generator value");
}

#[test]
fn should_not_return_the_same_url() {
    let value_type = ValueType::Int;
    let mut used_url: HashSet<String> = HashSet::new();

    for i in 0..100 {
        let relation = generate_a_relation_from_template(
            &a_template_relation(),
            &a_base_url(),
            value_type,
            &MockRangeGenerator { val: i },
            &MockSparqlConverter { success: true },
        )
        .unwrap();
        assert!(used_url.get(relation.node()).is_none());
        used_url.insert(relation.node().clone());
    }
}

#[test]
fn should_return_n_valid_relation_when_the_value_type_is_valid() {
    let value_type = ValueType::Integer;
    let n = 100;
    let response = generate_n_relation_from_a_template(
        n,
        &a_template_relation(),
        &a_base_url(),
        value_type,
        &MockRangeGenerator { val: 3 },
    )
    .unwrap();
    assert_eq!(response.len(), n);

    response.iter().for_each(|relation| {
        assert_eq!(*relation.remaning_items(), None);
        assert_eq!(*relation.path(), Some(a_path()));
        assert_eq!(*relation.relation_type(), Some(a_relation_type()));
    });
}

/// For the moment only number values are supported.
#[test]
fn should_return_an_error_when_the_values_types_are_not_compatible() {
    let value_type = ValueType::String;
    let n = 100;
    generate_n_relation_from_a_template(
        n,
        &a_template_relation(),
        &a_base_url(),
        value_type,
        &MockRangeGenerator { val: 3 },
    )
    .expect_err("should return an error because the value type are not compatible");
}

#[test]
fn given_a_direct_distribution_should_return_n_valid_relations() {
    let distribution_of_relation = vec![2, 3, 4];
    let value_type = ValueType::Long;
    let template_arg = TemplateRangeVariationRelation {
        template: a_template_relation(),
        range: Box::new(MockRangeGenerator { val: 2 }),
        distribution_of_relation: DistributionOfRelation::Direct(distribution_of_relation.clone()),
        value_type,
    };

    let response = handle_the_distribution_of_the_relation(&template_arg, &a_base_url()).unwrap();

    assert_eq!(response.len(), distribution_of_relation.len());

    for (i, relations) in response.iter().enumerate() {
        assert_eq!(relations.len(), distribution_of_relation[i]);
    }
}

#[test]
fn given_a_direct_distribution_should_return_an_error_when_the_value_type_is_not_compatible() {
    let distribution_of_relation = vec![1, 2, 10];
    let value_type = ValueType::Boolean;
    let template_arg = TemplateRangeVariationRelation {
        template: a_template_relation(),
        range: Box::new(MockRangeGenerator { val: 2 }),
        distribution_of_relation: DistributionOfRelation::Direct(distribution_of_relation.clone()),
        value_type,
    };

    handle_the_distribution_of_the_relation(&template_arg, &a_base_url())
        .expect_err("should return an error when the value type are not compatible");
}

#[test]
fn given_a_random_distribution_should_return_n_valid_relations() {
    let n: usize = 20;
    let range_generator_val = 5;
    let value_type = ValueType::Long;
    let template_arg = TemplateRangeVariationRelation {
        template: a_template_relation(),
        range: Box::new(MockRangeGenerator { val: 2 }),
        distribution_of_relation: DistributionOfRelation::Random(
            Box::new(MockRangeGenerator { val: range_generator_val }),
            n,
        ),
        value_type,
    };

    let response = handle_the_distribution_of_the_relation(&template_arg, &a_base_url()).unwrap();

    assert_eq!(response.len(), n);

    for relations in response.iter() {
        assert_eq!(relations.len(), range_generator_val);
    }
}

#[test]
fn given_a_random_distribution_should_return_an_error_when_the_value_type_is_not_compatible() {
    let n: usize = 30;
    let range_generator_val = 2;
    let value_type = ValueType::String;
    let template_arg = TemplateRangeVariationRelation {
        template: a_template_relation(),
        range: Box::new(MockRangeGenerator { val: 2 }),
        distribution_of_relation: DistributionOfRelation::Random(
            Box::new(MockRangeGenerator { val: range_generator_val }),
            n,
        ),
        value_type,
    };

    handle_the_distribution_of_the_relation(&template_arg, &a_base_url())
        .expect_err("should return an error when the type is incompatible with the generator");
}
