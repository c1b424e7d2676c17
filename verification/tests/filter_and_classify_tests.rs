use select_ir::annotation::{
    Annotation, InputAnnotation, ModelInputAnnotation, NdcColumn, UniqueIdentifierComponent,
};
use select_ir::filter::{
    BooleanExpression, ComparisonOperator, Expression, eval_column_expression,
    eval_structured_expression, unique_identifier_filter_column, unique_identifier_filter_structured,
};
use select_ir::request::{ArgumentValue, FieldCall, classify_field_arguments};
use select_ir::types::Value;

fn s(t: &str) -> String {
    String::from(t)
}

fn component(field: &str, column: &str, op: &str, value: Value) -> UniqueIdentifierComponent {
    UniqueIdentifierComponent {
        ndc_column: NdcColumn { column: s(column), equal_operator: s(op) },
        field_name: s(field),
        value,
    }
}

#[test]
fn no_components_no_filter() {
    assert_eq!(unique_identifier_filter_structured(&Vec::new()), None);
    assert_eq!(unique_identifier_filter_column(&Vec::new()), None);
}

#[test]
fn single_component_is_used_directly() {
    let comps = vec![component("id", "user_id", "=", Value::Int(7))];
    assert_eq!(
        unique_identifier_filter_structured(&comps),
        Some(BooleanExpression::Comparison {
            field_name: s("id"),
            operator: ComparisonOperator::Equals,
            value: Value::Int(7),
        })
    );
    assert_eq!(
        unique_identifier_filter_column(&comps),
        Some(Expression::BinaryComparison {
            column: s("user_id"),
            operator: s("="),
            value: Value::Int(7),
        })
    );
}

#[test]
fn several_components_are_conjoined_in_order() {
    let comps = vec![
        component("id", "user_id", "=", Value::Int(7)),
        component("org", "org_id", "=", Value::Str(s("acme"))),
        component("active", "is_active", "=", Value::Bool(true)),
    ];
    match unique_identifier_filter_structured(&comps) {
        Some(BooleanExpression::And(es)) => {
            assert_eq!(es.len(), 3);
            assert_eq!(
                es[2],
                BooleanExpression::Comparison {
                    field_name: s("active"),
                    operator: ComparisonOperator::Equals,
                    value: Value::Bool(true),
                }
            );
        }
        other => panic!("expected a conjunction, got {:?}", other),
    }
    match unique_identifier_filter_column(&comps) {
        Some(Expression::And(es)) => {
            assert_eq!(es.len(), 3);
            assert_eq!(
                es[1],
                Expression::BinaryComparison {
                    column: s("org_id"),
                    operator: s("="),
                    value: Value::Str(s("acme")),
                }
            );
        }
        other => panic!("expected a conjunction, got {:?}", other),
    }
}

#[test]
fn both_dialects_decide_rows_alike() {
    let comps = vec![
        component("id", "user_id", "=", Value::Int(7)),
        component("org", "org_id", "=", Value::Str(s("acme"))),
    ];
    let structured = unique_identifier_filter_structured(&comps).unwrap();
    let column = unique_identifier_filter_column(&comps).unwrap();

    // the same row, seen under field names and under connector columns
    let matching_fields = vec![(s("id"), Value::Int(7)), (s("org"), Value::Str(s("acme")))];
    let matching_columns = vec![(s("user_id"), Value::Int(7)), (s("org_id"), Value::Str(s("acme")))];
    assert!(eval_structured_expression(&structured, &matching_fields));
    assert!(eval_column_expression(&column, &matching_columns));

    let off_fields = vec![(s("id"), Value::Int(8)), (s("org"), Value::Str(s("acme")))];
    let off_columns = vec![(s("user_id"), Value::Int(8)), (s("org_id"), Value::Str(s("acme")))];
    assert!(!eval_structured_expression(&structured, &off_fields));
    assert!(!eval_column_expression(&column, &off_columns));

    let sparse_fields = vec![(s("id"), Value::Int(7))];
    let sparse_columns = vec![(s("user_id"), Value::Int(7))];
    assert!(!eval_structured_expression(&structured, &sparse_fields));
    assert!(!eval_column_expression(&column, &sparse_columns));
}

fn call_with(args: Vec<ArgumentValue>) -> FieldCall {
    FieldCall { name: s("UserByID"), arguments: args, namespaced: None }
}

#[test]
fn classification_partitions_arguments() {
    let args = vec![
        ArgumentValue {
            name: s("region"),
            value: Value::Str(s("eu")),
            annotation: Annotation::Input(InputAnnotation::Model(ModelInputAnnotation::ModelArgument)),
        },
        ArgumentValue {
            name: s("id"),
            value: Value::Int(9),
            annotation: Annotation::Input(InputAnnotation::Model(
                ModelInputAnnotation::ModelUniqueIdentifierArgument {
                    field_name: s("id"),
                    ndc_column: Some(NdcColumn { column: s("user_id"), equal_operator: s("=") }),
                },
            )),
        },
    ];
    let call = call_with(args);
    let (model_args, components) = classify_field_arguments(&call).unwrap();
    // each argument lands in exactly one partition
    assert_eq!(model_args.len(), 1);
    assert_eq!(model_args[0].name, s("region"));
    assert_eq!(components.len(), 1);
    assert_eq!(components[0], component("id", "user_id", "=", Value::Int(9)));
}

#[test]
fn classification_rejects_foreign_annotation() {
    let args = vec![ArgumentValue {
        name: s("where"),
        value: Value::Null,
        annotation: Annotation::Input(InputAnnotation::BooleanExpression),
    }];
    let call = call_with(args);
    assert!(classify_field_arguments(&call).is_err());
}
