use select_ir::GraphqlRequestPipeline;
use select_ir::annotation::{Annotation, InputAnnotation, ModelInputAnnotation, NdcColumn};
use select_ir::arguments::Argument;
use select_ir::error::Error;
use select_ir::filter::{BooleanExpression, ComparisonOperator, Expression};
use select_ir::model::{ArgumentMapping, HeaderPreset, ModelSource};
use select_ir::permissions::{
    ArgumentPreset, FilterPermission, NamespaceAnnotation, RequestHeaders, SessionVariables,
    ValueExpression,
};
use select_ir::request::{ArgumentValue, Field, FieldCall};
use select_ir::select_one::{ModelSelectOne, ModelSelectOneSelection, select_one_generate_ir};
use select_ir::types::{TypeContainer, Value};
use select_ir::usage::ModelCount;

fn s(t: &str) -> String {
    String::from(t)
}

fn uid_annotation(field_name: &str, column: &str, op: &str) -> Annotation {
    Annotation::Input(InputAnnotation::Model(ModelInputAnnotation::ModelUniqueIdentifierArgument {
        field_name: s(field_name),
        ndc_column: Some(NdcColumn { column: s(column), equal_operator: s(op) }),
    }))
}

fn model_arg_annotation() -> Annotation {
    Annotation::Input(InputAnnotation::Model(ModelInputAnnotation::ModelArgument))
}

fn empty_source() -> ModelSource {
    ModelSource { argument_mappings: Vec::new(), data_connector_link_argument_presets: Vec::new() }
}

fn user_field() -> Field {
    Field {
        type_container: TypeContainer::named_non_null(s("User")),
        selection_set: vec![s("id"), s("name")],
    }
}

fn model_annotation(presets: Vec<ArgumentPreset>) -> Option<NamespaceAnnotation> {
    Some(NamespaceAnnotation::Model { argument_presets: presets, filter: FilterPermission::AllowAll })
}

fn field_call(args: Vec<ArgumentValue>, namespaced: Option<NamespaceAnnotation>) -> FieldCall {
    FieldCall { name: s("UserByID"), arguments: args, namespaced }
}

fn compile(
    pipeline: GraphqlRequestPipeline,
    call: &FieldCall,
    source: &ModelSource,
    session: &SessionVariables,
    headers: &RequestHeaders,
) -> Result<ModelSelectOne, Error> {
    let field = user_field();
    select_one_generate_ir(
        pipeline,
        &field,
        call,
        &s("User"),
        source,
        session,
        headers,
        &s("User"),
    )
}

fn no_session() -> SessionVariables {
    SessionVariables { vars: Vec::new() }
}

fn no_headers() -> RequestHeaders {
    RequestHeaders { headers: Vec::new() }
}

fn id_42_argument() -> ArgumentValue {
    ArgumentValue { name: s("id"), value: Value::Int(42), annotation: uid_annotation("id", "user_id", "=") }
}

#[test]
fn select_one_structured_scenario() {
    let call = field_call(vec![id_42_argument()], model_annotation(Vec::new()));
    let r = compile(
        GraphqlRequestPipeline::OpenDd,
        &call,
        &empty_source(),
        &no_session(),
        &no_headers(),
    )
    .unwrap();
    assert_eq!(r.field_name, s("UserByID"));
    assert_eq!(r.usage_counts.models_used, vec![ModelCount { model: s("User"), count: 1 }]);
    assert!(r.usage_counts.commands_used.is_empty());
    match r.model_selection {
        ModelSelectOneSelection::OpenDd(sel) => {
            assert_eq!(sel.model_name, s("User"));
            assert_eq!(sel.data_type, s("User"));
            assert_eq!(
                sel.where_clause,
                Some(BooleanExpression::Comparison {
                    field_name: s("id"),
                    operator: ComparisonOperator::Equals,
                    value: Value::Int(42),
                })
            );
            assert_eq!(sel.limit, None);
            assert_eq!(sel.offset, None);
            assert_eq!(sel.selection, vec![s("id"), s("name")]);
        }
        ModelSelectOneSelection::Ir(_) => panic!("structured pipeline produced a legacy node"),
    }
}

#[test]
fn select_one_legacy_scenario() {
    let call = field_call(vec![id_42_argument()], model_annotation(Vec::new()));
    let r = compile(
        GraphqlRequestPipeline::Old,
        &call,
        &empty_source(),
        &no_session(),
        &no_headers(),
    )
    .unwrap();
    assert_eq!(r.usage_counts.models_used, vec![ModelCount { model: s("User"), count: 1 }]);
    match r.model_selection {
        ModelSelectOneSelection::Ir(sel) => {
            assert_eq!(sel.data_type, s("User"));
            assert!(sel.arguments.entries.is_empty());
            assert_eq!(sel.query_filter.where_clause, None);
            assert_eq!(
                sel.query_filter.additional_filter,
                Some(Expression::BinaryComparison {
                    column: s("user_id"),
                    operator: s("="),
                    value: Value::Int(42),
                })
            );
            assert_eq!(sel.permission_filter, FilterPermission::AllowAll);
            assert_eq!(sel.limit, None);
            assert_eq!(sel.offset, None);
            assert_eq!(sel.order_by, None);
        }
        ModelSelectOneSelection::OpenDd(_) => panic!("legacy pipeline produced a structured node"),
    }
}

#[test]
fn select_one_two_components_filters_correspond() {
    let args = vec![
        id_42_argument(),
        ArgumentValue {
            name: s("org"),
            value: Value::Str(s("acme")),
            annotation: uid_annotation("org", "org_id", "_eq"),
        },
    ];
    let call = field_call(args, model_annotation(Vec::new()));
    let structured = compile(
        GraphqlRequestPipeline::OpenDd,
        &call,
        &empty_source(),
        &no_session(),
        &no_headers(),
    )
    .unwrap();
    let legacy = compile(
        GraphqlRequestPipeline::Old,
        &call,
        &empty_source(),
        &no_session(),
        &no_headers(),
    )
    .unwrap();
    let swhere = match structured.model_selection {
        ModelSelectOneSelection::OpenDd(sel) => sel.where_clause,
        _ => panic!("wrong dialect"),
    };
    let cwhere = match legacy.model_selection {
        ModelSelectOneSelection::Ir(sel) => sel.query_filter.additional_filter,
        _ => panic!("wrong dialect"),
    };
    // Both dialects conjoin the same two equalities, field-named in one and
    // column-named in the other.
    assert_eq!(
        swhere,
        Some(BooleanExpression::And(vec![
            BooleanExpression::Comparison {
                field_name: s("id"),
                operator: ComparisonOperator::Equals,
                value: Value::Int(42),
            },
            BooleanExpression::Comparison {
                field_name: s("org"),
                operator: ComparisonOperator::Equals,
                value: Value::Str(s("acme")),
            },
        ]))
    );
    assert_eq!(
        cwhere,
        Some(Expression::And(vec![
            Expression::BinaryComparison { column: s("user_id"), operator: s("="), value: Value::Int(42) },
            Expression::BinaryComparison {
                column: s("org_id"),
                operator: s("_eq"),
                value: Value::Str(s("acme")),
            },
        ]))
    );
}

#[test]
fn select_one_rejects_unexpected_annotation() {
    let args = vec![ArgumentValue {
        name: s("limit"),
        value: Value::Int(10),
        annotation: Annotation::Input(InputAnnotation::Model(ModelInputAnnotation::ModelLimitArgument)),
    }];
    let call = field_call(args, model_annotation(Vec::new()));
    let r = compile(
        GraphqlRequestPipeline::Old,
        &call,
        &empty_source(),
        &no_session(),
        &no_headers(),
    );
    assert!(matches!(r, Err(Error::UnexpectedAnnotation { .. })));
}

#[test]
fn select_one_rejects_missing_column_mapping() {
    let args = vec![ArgumentValue {
        name: s("id"),
        value: Value::Int(1),
        annotation: Annotation::Input(InputAnnotation::Model(
            ModelInputAnnotation::ModelUniqueIdentifierArgument {
                field_name: s("id"),
                ndc_column: None,
            },
        )),
    }];
    let call = field_call(args, model_annotation(Vec::new()));
    let r = compile(
        GraphqlRequestPipeline::Old,
        &call,
        &empty_source(),
        &no_session(),
        &no_headers(),
    );
    match r {
        Err(Error::MissingNdcColumnMapping { argument_name, field_name }) => {
            assert_eq!(argument_name, s("id"));
            assert_eq!(field_name, s("UserByID"));
        }
        other => panic!("expected a missing-mapping failure, got {:?}", other),
    }
}

#[test]
fn select_one_resolves_model_arguments() {
    let source = ModelSource {
        argument_mappings: vec![ArgumentMapping {
            argument_name: s("region"),
            connector_argument_name: s("region_ndc"),
        }],
        data_connector_link_argument_presets: Vec::new(),
    };
    let args = vec![ArgumentValue {
        name: s("region"),
        value: Value::Str(s("eu")),
        annotation: model_arg_annotation(),
    }];
    let call = field_call(args, model_annotation(Vec::new()));
    let r = compile(GraphqlRequestPipeline::Old, &call, &source, &no_session(), &no_headers())
        .unwrap();
    match r.model_selection {
        ModelSelectOneSelection::Ir(sel) => {
            assert_eq!(
                sel.arguments.entries,
                vec![Argument { name: s("region_ndc"), value: Value::Str(s("eu")) }]
            );
        }
        _ => panic!("wrong dialect"),
    }
}

#[test]
fn select_one_rejects_unmapped_model_argument() {
    let args = vec![ArgumentValue {
        name: s("region"),
        value: Value::Str(s("eu")),
        annotation: model_arg_annotation(),
    }];
    let call = field_call(args, model_annotation(Vec::new()));
    let r = compile(
        GraphqlRequestPipeline::Old,
        &call,
        &empty_source(),
        &no_session(),
        &no_headers(),
    );
    match r {
        Err(Error::ArgumentMappingNotFound { argument_name }) => {
            assert_eq!(argument_name, s("region"));
        }
        other => panic!("expected a mapping failure, got {:?}", other),
    }
}

#[test]
fn select_one_conflicting_connector_names() {
    let source = ModelSource {
        argument_mappings: vec![
            ArgumentMapping { argument_name: s("a"), connector_argument_name: s("shared") },
            ArgumentMapping { argument_name: s("b"), connector_argument_name: s("shared") },
        ],
        data_connector_link_argument_presets: Vec::new(),
    };
    let args = vec![
        ArgumentValue { name: s("a"), value: Value::Int(1), annotation: model_arg_annotation() },
        ArgumentValue { name: s("b"), value: Value::Int(2), annotation: model_arg_annotation() },
    ];
    let call = field_call(args, model_annotation(Vec::new()));
    let r = compile(GraphqlRequestPipeline::Old, &call, &source, &no_session(), &no_headers());
    match r {
        Err(Error::GraphQlArgumentConflict { argument_name, field_name, parent_type }) => {
            assert_eq!(argument_name, s("shared"));
            assert_eq!(field_name, s("UserByID"));
            assert_eq!(parent_type, s("User"));
        }
        other => panic!("expected an argument conflict, got {:?}", other),
    }
}

#[test]
fn select_one_preset_overrides_user_value() {
    let source = ModelSource {
        argument_mappings: vec![ArgumentMapping {
            argument_name: s("tenant"),
            connector_argument_name: s("tenant_ndc"),
        }],
        data_connector_link_argument_presets: Vec::new(),
    };
    let args = vec![ArgumentValue {
        name: s("tenant"),
        value: Value::Str(s("client-supplied")),
        annotation: model_arg_annotation(),
    }];
    let presets = vec![ArgumentPreset {
        argument_name: s("tenant"),
        value: ValueExpression::Literal(Value::Str(s("acme"))),
    }];
    let call = field_call(args, model_annotation(presets));
    let r = compile(GraphqlRequestPipeline::Old, &call, &source, &no_session(), &no_headers())
        .unwrap();
    match r.model_selection {
        ModelSelectOneSelection::Ir(sel) => {
            assert_eq!(
                sel.arguments.entries,
                vec![Argument { name: s("tenant_ndc"), value: Value::Str(s("acme")) }]
            );
        }
        _ => panic!("wrong dialect"),
    }
}

#[test]
fn select_one_preset_only_scenario() {
    let source = ModelSource {
        argument_mappings: vec![ArgumentMapping {
            argument_name: s("tenant_id"),
            connector_argument_name: s("tenant_id"),
        }],
        data_connector_link_argument_presets: Vec::new(),
    };
    let presets = vec![ArgumentPreset {
        argument_name: s("tenant_id"),
        value: ValueExpression::Literal(Value::Str(s("acme"))),
    }];
    let call = field_call(Vec::new(), model_annotation(presets));
    let r = compile(GraphqlRequestPipeline::Old, &call, &source, &no_session(), &no_headers())
        .unwrap();
    match r.model_selection {
        ModelSelectOneSelection::Ir(sel) => {
            assert_eq!(
                sel.arguments.entries,
                vec![Argument { name: s("tenant_id"), value: Value::Str(s("acme")) }]
            );
        }
        _ => panic!("wrong dialect"),
    }
}

#[test]
fn select_one_later_preset_wins_in_place() {
    let source = ModelSource {
        argument_mappings: vec![ArgumentMapping {
            argument_name: s("tenant"),
            connector_argument_name: s("tenant_ndc"),
        }],
        data_connector_link_argument_presets: Vec::new(),
    };
    let presets = vec![
        ArgumentPreset {
            argument_name: s("tenant"),
            value: ValueExpression::Literal(Value::Str(s("first"))),
        },
        ArgumentPreset {
            argument_name: s("tenant"),
            value: ValueExpression::Literal(Value::Str(s("second"))),
        },
    ];
    let call = field_call(Vec::new(), model_annotation(presets));
    let r = compile(GraphqlRequestPipeline::Old, &call, &source, &no_session(), &no_headers())
        .unwrap();
    match r.model_selection {
        ModelSelectOneSelection::Ir(sel) => {
            assert_eq!(
                sel.arguments.entries,
                vec![Argument { name: s("tenant_ndc"), value: Value::Str(s("second")) }]
            );
        }
        _ => panic!("wrong dialect"),
    }
}

#[test]
fn select_one_session_variable_preset() {
    let source = ModelSource {
        argument_mappings: vec![ArgumentMapping {
            argument_name: s("owner"),
            connector_argument_name: s("owner_id"),
        }],
        data_connector_link_argument_presets: Vec::new(),
    };
    let presets = vec![ArgumentPreset {
        argument_name: s("owner"),
        value: ValueExpression::SessionVariable(s("x-user-id")),
    }];
    let session = SessionVariables { vars: vec![(s("x-user-id"), s("u-7"))] };
    let call = field_call(Vec::new(), model_annotation(presets));
    let r = compile(GraphqlRequestPipeline::Old, &call, &source, &session, &no_headers())
        .unwrap();
    match r.model_selection {
        ModelSelectOneSelection::Ir(sel) => {
            assert_eq!(
                sel.arguments.entries,
                vec![Argument { name: s("owner_id"), value: Value::Str(s("u-7")) }]
            );
        }
        _ => panic!("wrong dialect"),
    }
}

#[test]
fn select_one_missing_session_variable() {
    let source = ModelSource {
        argument_mappings: vec![ArgumentMapping {
            argument_name: s("owner"),
            connector_argument_name: s("owner_id"),
        }],
        data_connector_link_argument_presets: Vec::new(),
    };
    let presets = vec![ArgumentPreset {
        argument_name: s("owner"),
        value: ValueExpression::SessionVariable(s("x-user-id")),
    }];
    let call = field_call(Vec::new(), model_annotation(presets));
    let r = compile(GraphqlRequestPipeline::Old, &call, &source, &no_session(), &no_headers());
    match r {
        Err(Error::SessionVariableNotFound { variable_name }) => {
            assert_eq!(variable_name, s("x-user-id"));
        }
        other => panic!("expected a session-variable failure, got {:?}", other),
    }
}

#[test]
fn select_one_header_preset_binds_when_present() {
    let source = ModelSource {
        argument_mappings: Vec::new(),
        data_connector_link_argument_presets: vec![HeaderPreset {
            argument_name: s("trace"),
            header_name: s("x-trace-id"),
        }],
    };
    let headers = RequestHeaders { headers: vec![(s("x-trace-id"), s("t-1"))] };
    let call = field_call(Vec::new(), model_annotation(Vec::new()));
    let r = compile(GraphqlRequestPipeline::Old, &call, &source, &no_session(), &headers)
        .unwrap();
    match r.model_selection {
        ModelSelectOneSelection::Ir(sel) => {
            assert_eq!(
                sel.arguments.entries,
                vec![Argument { name: s("trace"), value: Value::Str(s("t-1")) }]
            );
        }
        _ => panic!("wrong dialect"),
    }
}

#[test]
fn select_one_header_preset_skipped_when_absent() {
    let source = ModelSource {
        argument_mappings: Vec::new(),
        data_connector_link_argument_presets: vec![HeaderPreset {
            argument_name: s("trace"),
            header_name: s("x-trace-id"),
        }],
    };
    let call = field_call(Vec::new(), model_annotation(Vec::new()));
    let r = compile(GraphqlRequestPipeline::Old, &call, &source, &no_session(), &no_headers())
        .unwrap();
    match r.model_selection {
        ModelSelectOneSelection::Ir(sel) => {
            assert!(sel.arguments.entries.is_empty());
        }
        _ => panic!("wrong dialect"),
    }
}

#[test]
fn select_one_command_annotation_is_unexpected() {
    let call = field_call(Vec::new(), Some(NamespaceAnnotation::Command));
    let r = compile(
        GraphqlRequestPipeline::Old,
        &call,
        &empty_source(),
        &no_session(),
        &no_headers(),
    );
    assert!(matches!(r, Err(Error::UnexpectedNamespaceAnnotation)));
}

#[test]
fn select_one_legacy_requires_permission_annotation() {
    let call = field_call(Vec::new(), None);
    let legacy = compile(
        GraphqlRequestPipeline::Old,
        &call,
        &empty_source(),
        &no_session(),
        &no_headers(),
    );
    assert!(matches!(legacy, Err(Error::FilterPermissionNotFound)));
    let structured = compile(
        GraphqlRequestPipeline::OpenDd,
        &call,
        &empty_source(),
        &no_session(),
        &no_headers(),
    );
    assert!(structured.is_ok());
}

#[test]
fn select_one_no_components_no_filter() {
    let call = field_call(Vec::new(), model_annotation(Vec::new()));
    let r = compile(
        GraphqlRequestPipeline::OpenDd,
        &call,
        &empty_source(),
        &no_session(),
        &no_headers(),
    )
    .unwrap();
    match r.model_selection {
        ModelSelectOneSelection::OpenDd(sel) => assert_eq!(sel.where_clause, None),
        _ => panic!("wrong dialect"),
    }
}
