use select_ir::annotation::{Annotation, InputAnnotation, ModelInputAnnotation, OutputAnnotation, RootFieldKind};
use select_ir::error::Error;
use select_ir::model::{
    ArgumentDefinition, ModelSource, ModelWithPermissions, RoleSelectPermission,
    SelectManyGraphQlDefinition,
};
use select_ir::permissions::{FilterPermission, NamespaceAnnotation};
use select_ir::select_many::{generate_select_many_arguments, select_many_field};
use select_ir::types::{BaseType, TypeContainer};

fn s(t: &str) -> String {
    String::from(t)
}

fn user_model(arguments: Vec<ArgumentDefinition>, arguments_field_name: &str) -> ModelWithPermissions {
    ModelWithPermissions {
        name: s("User"),
        data_type: s("User"),
        arguments,
        arguments_field_name: s(arguments_field_name),
        arguments_input_type: s("UserArgs"),
        order_by_type: s("UserOrderBy"),
        filter_type: s("UserBoolExp"),
        role_permissions: vec![RoleSelectPermission {
            role: s("viewer"),
            argument_presets: Vec::new(),
            filter: FilterPermission::AllowAll,
        }],
        source: ModelSource {
            argument_mappings: Vec::new(),
            data_connector_link_argument_presets: Vec::new(),
        },
    }
}

fn definition() -> SelectManyGraphQlDefinition {
    SelectManyGraphQlDefinition { query_root_field: s("userMany") }
}

fn names(args: &[select_ir::select_many::Namespaced<select_ir::select_many::InputField>]) -> Vec<String> {
    args.iter().map(|a| a.item.name.clone()).collect()
}

#[test]
fn select_many_arguments_fixed_order() {
    let model = user_model(Vec::new(), "args");
    let args = generate_select_many_arguments(&model);
    assert_eq!(names(&args), vec![s("limit"), s("offset"), s("order_by"), s("where")]);
    assert_eq!(
        args[0].item.annotation,
        Annotation::Input(InputAnnotation::Model(ModelInputAnnotation::ModelLimitArgument))
    );
    assert_eq!(
        args[3].item.annotation,
        Annotation::Input(InputAnnotation::Model(ModelInputAnnotation::ModelFilterExpression))
    );
    assert_eq!(
        args[2].item.field_type,
        TypeContainer { base: BaseType::Named(s("UserOrderBy")), nullable: true }
    );
    // every argument is visible exactly to the permitted roles
    for a in &args {
        assert_eq!(a.namespace_annotations.len(), 1);
        assert_eq!(a.namespace_annotations[0].0, s("viewer"));
        assert!(matches!(
            a.namespace_annotations[0].1,
            NamespaceAnnotation::Model { .. }
        ));
    }
}

#[test]
fn select_many_schema_without_model_arguments() {
    let model = user_model(Vec::new(), "args");
    let (name, field) = select_many_field(&model, &definition(), &s("Query")).unwrap();
    assert_eq!(name, s("userMany"));
    assert_eq!(field.item.name, s("userMany"));
    // no `args` object is synthesized when the model declares no arguments
    assert_eq!(names(&field.item.arguments), vec![s("limit"), s("offset"), s("order_by"), s("where")]);
    // output type: nullable list of non-null model type
    assert_eq!(
        field.item.field_type,
        TypeContainer {
            base: BaseType::List(Box::new(TypeContainer {
                base: BaseType::Named(s("User")),
                nullable: false,
            })),
            nullable: true,
        }
    );
    assert_eq!(
        field.item.annotation,
        Annotation::Output(OutputAnnotation::RootField {
            data_type: s("User"),
            kind: RootFieldKind::SelectMany,
            name: s("User"),
        })
    );
    assert_eq!(field.namespace_annotations.len(), 1);
    assert_eq!(field.namespace_annotations[0].0, s("viewer"));
}

#[test]
fn select_many_schema_with_model_arguments() {
    let model = user_model(
        vec![ArgumentDefinition { argument_name: s("region"), argument_type: s("String") }],
        "args",
    );
    let (_, field) = select_many_field(&model, &definition(), &s("Query")).unwrap();
    let arg_names = names(&field.item.arguments);
    assert_eq!(
        arg_names,
        vec![s("limit"), s("offset"), s("order_by"), s("where"), s("args")]
    );
    // one entry per name, no duplicates
    for i in 0..arg_names.len() {
        for j in (i + 1)..arg_names.len() {
            assert_ne!(arg_names[i], arg_names[j]);
        }
    }
    let args_field = &field.item.arguments[4];
    assert_eq!(
        args_field.item.annotation,
        Annotation::Input(InputAnnotation::Model(ModelInputAnnotation::ModelArgumentsExpression))
    );
    assert_eq!(
        args_field.item.field_type,
        TypeContainer { base: BaseType::Named(s("UserArgs")), nullable: false }
    );
}

#[test]
fn select_many_args_name_conflict_fails_loudly() {
    let model = user_model(
        vec![ArgumentDefinition { argument_name: s("region"), argument_type: s("String") }],
        "limit",
    );
    let r = select_many_field(&model, &definition(), &s("Query"));
    match r {
        Err(Error::GraphQlArgumentConflict { argument_name, field_name, parent_type }) => {
            assert_eq!(argument_name, s("limit"));
            assert_eq!(field_name, s("userMany"));
            assert_eq!(parent_type, s("Query"));
        }
        other => panic!("expected an argument conflict, got {:?}", other),
    }
}

#[test]
fn select_many_conflict_needs_declared_arguments() {
    // the same colliding name is harmless while the model declares no
    // arguments: no object is synthesized at all
    let model = user_model(Vec::new(), "limit");
    let (_, field) = select_many_field(&model, &definition(), &s("Query")).unwrap();
    assert_eq!(field.item.arguments.len(), 4);
}
