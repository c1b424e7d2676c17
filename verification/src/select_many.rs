//! Schema generation for a select-many operation: the externally advertised
//! field with its full argument set.
//!
//! The argument set is assembled in a fixed order — limit, offset, order-by,
//! where, then a single synthesized input object bundling the model's own
//! arguments when it declares any. Inserting that object must not overwrite
//! an existing argument name: a collision is a hard, structured conflict.
//! Every field and argument carries the role-gated visibility annotations of
//! the model's select permissions.

use vstd::prelude::*;
use vstd::string::StringExecFns;
use crate::annotation::{Annotation, InputAnnotation, ModelInputAnnotation, OutputAnnotation, RootFieldKind};
use crate::error::Error;
use crate::model::{ModelWithPermissions, RoleSelectPermission, SelectManyGraphQlDefinition};
use crate::permissions::{
    NamespaceAnnotation, clone_argument_presets, clone_filter_permission, filter_permission_eqv,
};
use crate::types::{BaseType, TypeContainer};

verus! {

/// A schema item gated by role: visible only to the roles that carry an
/// annotation, each with the permission data that role compiles under.
#[derive(Debug, PartialEq, Eq)]
pub struct Namespaced<T> {
    pub item: T,
    pub namespace_annotations: Vec<(String, NamespaceAnnotation)>,
}

/// One advertised input field of a schema field.
#[derive(Debug, PartialEq, Eq)]
pub struct InputField {
    pub name: String,
    pub annotation: Annotation,
    pub field_type: TypeContainer,
}

/// One advertised schema field: its name, its annotation, its output type
/// and its argument set.
#[derive(Debug, PartialEq, Eq)]
pub struct Field {
    pub name: String,
    pub annotation: Annotation,
    pub field_type: TypeContainer,
    pub arguments: Vec<Namespaced<InputField>>,
}

/// The annotations mirror the model's select permissions role by role: the
/// same role names in order, each carrying that role's presets and an
/// equivalent row filter.
pub open spec fn namespace_annotations_for(
    anns: Seq<(String, NamespaceAnnotation)>,
    roles: Seq<RoleSelectPermission>,
) -> bool {
    &&& anns.len() == roles.len()
    &&& forall|i: int|
        0 <= i < roles.len() ==> {
            &&& (#[trigger] anns[i]).0 == roles[i].role
            &&& anns[i].1 matches NamespaceAnnotation::Model { argument_presets, filter }
                && argument_presets@ == roles[i].argument_presets@ && filter_permission_eqv(
                filter,
                roles[i].filter,
            )
        }
}

/// One role-gated visibility annotation per select permission of the model.
#[verifier::loop_isolation(false)]
pub fn get_select_permissions_namespace_annotations(model: &ModelWithPermissions) -> (res: Vec<
    (String, NamespaceAnnotation),
>)
    ensures
        namespace_annotations_for(res@, model.role_permissions@),
{
    let roles = &model.role_permissions;
    let mut out: Vec<(String, NamespaceAnnotation)> = Vec::new();
    let mut i: usize = 0;
    while i < roles.len()
        invariant
            i <= roles@.len(),
            namespace_annotations_for(out@, roles@.subrange(0, i as int)),
        decreases roles@.len() - i,
    {
        let rp = &roles[i];
        out.push(
            (
                rp.role.clone(),
                NamespaceAnnotation::Model {
                    argument_presets: clone_argument_presets(&rp.argument_presets),
                    filter: clone_filter_permission(&rp.filter),
                },
            ),
        );
        i = i + 1;
    }
    proof {
        assert(roles@.subrange(0, roles@.len() as int) =~= roles@);
    }
    out
}

/// The input field stands for this model argument annotation under this
/// name, with a nullable named type and the model's role annotations.
pub open spec fn is_model_input_field(
    f: Namespaced<InputField>,
    name: Seq<char>,
    ann: ModelInputAnnotation,
    base: Seq<char>,
    model: ModelWithPermissions,
) -> bool {
    &&& f.item.name@ == name
    &&& f.item.annotation == Annotation::Input(InputAnnotation::Model(ann))
    &&& f.item.field_type.nullable == true
    &&& f.item.field_type.base matches BaseType::Named(n) && n@ == base
    &&& namespace_annotations_for(f.namespace_annotations@, model.role_permissions@)
}

/// `new_s` is `old_s` with one more entry at the end.
pub open spec fn pushes_one(
    old_s: Seq<Namespaced<InputField>>,
    new_s: Seq<Namespaced<InputField>>,
) -> bool {
    &&& new_s.len() == old_s.len() + 1
    &&& forall|j: int| 0 <= j < old_s.len() ==> new_s[j] == old_s[j]
}

fn input_field(
    name: String,
    ann: ModelInputAnnotation,
    base: String,
    model: &ModelWithPermissions,
) -> (res: Namespaced<InputField>)
    ensures
        res.item.name == name,
        res.item.annotation == Annotation::Input(InputAnnotation::Model(ann)),
        res.item.field_type == (TypeContainer { base: BaseType::Named(base), nullable: true }),
        namespace_annotations_for(res.namespace_annotations@, model.role_permissions@),
{
    Namespaced {
        item: InputField {
            name,
            annotation: Annotation::Input(InputAnnotation::Model(ann)),
            field_type: TypeContainer { base: BaseType::Named(base), nullable: true },
        },
        namespace_annotations: get_select_permissions_namespace_annotations(model),
    }
}

/// Appends the pagination limit argument.
pub fn add_limit_input_field(arguments: &mut Vec<Namespaced<InputField>>, model: &ModelWithPermissions)
    ensures
        pushes_one(old(arguments)@, final(arguments)@),
        is_model_input_field(
            final(arguments)@.last(),
            "limit"@,
            ModelInputAnnotation::ModelLimitArgument,
            "Int"@,
            *model,
        ),
{
    let f = input_field(
        String::from_str("limit"),
        ModelInputAnnotation::ModelLimitArgument,
        String::from_str("Int"),
        model,
    );
    arguments.push(f);
}

/// Appends the pagination offset argument.
pub fn add_offset_input_field(arguments: &mut Vec<Namespaced<InputField>>, model: &ModelWithPermissions)
    ensures
        pushes_one(old(arguments)@, final(arguments)@),
        is_model_input_field(
            final(arguments)@.last(),
            "offset"@,
            ModelInputAnnotation::ModelOffsetArgument,
            "Int"@,
            *model,
        ),
{
    let f = input_field(
        String::from_str("offset"),
        ModelInputAnnotation::ModelOffsetArgument,
        String::from_str("Int"),
        model,
    );
    arguments.push(f);
}

/// Appends the ordering argument, typed by the model's order-by expression.
pub fn add_order_by_input_field(
    arguments: &mut Vec<Namespaced<InputField>>,
    model: &ModelWithPermissions,
)
    ensures
        pushes_one(old(arguments)@, final(arguments)@),
        is_model_input_field(
            final(arguments)@.last(),
            "order_by"@,
            ModelInputAnnotation::ModelOrderByExpression,
            model.order_by_type@,
            *model,
        ),
{
    let f = input_field(
        String::from_str("order_by"),
        ModelInputAnnotation::ModelOrderByExpression,
        model.order_by_type.clone(),
        model,
    );
    arguments.push(f);
}

/// Appends the filtering argument, typed by the model's boolean expression.
pub fn add_where_input_field(arguments: &mut Vec<Namespaced<InputField>>, model: &ModelWithPermissions)
    ensures
        pushes_one(old(arguments)@, final(arguments)@),
        is_model_input_field(
            final(arguments)@.last(),
            "where"@,
            ModelInputAnnotation::ModelFilterExpression,
            model.filter_type@,
            *model,
        ),
{
    let f = input_field(
        String::from_str("where"),
        ModelInputAnnotation::ModelFilterExpression,
        model.filter_type.clone(),
        model,
    );
    arguments.push(f);
}

/// Generates the schema for the arguments of a model selection: limit,
/// offset, order-by and where, in that fixed order.
pub fn generate_select_many_arguments(model: &ModelWithPermissions) -> (res: Vec<
    Namespaced<InputField>,
>)
    ensures
        res@.len() == 4,
        is_model_input_field(
            res@[0],
            "limit"@,
            ModelInputAnnotation::ModelLimitArgument,
            "Int"@,
            *model,
        ),
        is_model_input_field(
            res@[1],
            "offset"@,
            ModelInputAnnotation::ModelOffsetArgument,
            "Int"@,
            *model,
        ),
        is_model_input_field(
            res@[2],
            "order_by"@,
            ModelInputAnnotation::ModelOrderByExpression,
            model.order_by_type@,
            *model,
        ),
        is_model_input_field(
            res@[3],
            "where"@,
            ModelInputAnnotation::ModelFilterExpression,
            model.filter_type@,
            *model,
        ),
{
    let mut arguments: Vec<Namespaced<InputField>> = Vec::new();
    add_limit_input_field(&mut arguments, model);
    add_offset_input_field(&mut arguments, model);
    add_order_by_input_field(&mut arguments, model);
    add_where_input_field(&mut arguments, model);
    arguments
}

/// The synthesized input object bundling the model's declared arguments,
/// named and typed by the model's configuration.
pub fn get_model_arguments_input_field(model: &ModelWithPermissions) -> (res: InputField)
    ensures
        res.name == model.arguments_field_name,
        res.annotation == Annotation::Input(
            InputAnnotation::Model(ModelInputAnnotation::ModelArgumentsExpression),
        ),
        res.field_type == (TypeContainer {
            base: BaseType::Named(model.arguments_input_type),
            nullable: false,
        }),
{
    InputField {
        name: model.arguments_field_name.clone(),
        annotation: Annotation::Input(
            InputAnnotation::Model(ModelInputAnnotation::ModelArgumentsExpression),
        ),
        field_type: TypeContainer {
            base: BaseType::Named(model.arguments_input_type.clone()),
            nullable: false,
        },
    }
}

/// Whether some argument already bears this name.
#[verifier::loop_isolation(false)]
fn contains_input_field_name(v: &Vec<Namespaced<InputField>>, name: &String) -> (res: bool)
    ensures
        res == exists|i: int| 0 <= i < v@.len() && (#[trigger] v@[i]).item.name@ == name@,
{
    let mut i: usize = 0;
    while i < v.len()
        invariant
            i <= v@.len(),
            forall|j: int| 0 <= j < i ==> (#[trigger] v@[j]).item.name@ != name@,
        decreases v@.len() - i,
    {
        if v[i].item.name.eq(name) {
            return true;
        }
        i = i + 1;
    }
    false
}

/// The synthesized argument object's name would land on an argument the
/// field already advertises.
pub open spec fn args_field_conflicts(model: ModelWithPermissions) -> bool {
    model.arguments@.len() > 0 && {
        let n = model.arguments_field_name@;
        n == "limit"@ || n == "offset"@ || n == "order_by"@ || n == "where"@
    }
}

/// Generates the schema for a select-many operation: the advertised field
/// under its query-root name, typed as a nullable list of the non-null model
/// type, with exactly one entry per argument name — pagination, ordering and
/// filtering always, plus the synthesized argument object when the model
/// declares arguments. A name collision on that object is a structured
/// conflict error naming the argument, the field and the enclosing type;
/// nothing is ever silently overwritten.
pub fn select_many_field(
    model: &ModelWithPermissions,
    select_many: &SelectManyGraphQlDefinition,
    parent_type: &String,
) -> (res: Result<(String, Namespaced<Field>), Error>)
    ensures
        match res {
            Err(e) => args_field_conflicts(*model) && e == (Error::GraphQlArgumentConflict {
                argument_name: model.arguments_field_name,
                field_name: select_many.query_root_field,
                parent_type: *parent_type,
            }),
            Ok(pair) => {
                &&& !args_field_conflicts(*model)
                &&& pair.0 == select_many.query_root_field
                &&& pair.1.item.name == select_many.query_root_field
                &&& pair.1.item.annotation == Annotation::Output(
                    OutputAnnotation::RootField {
                        data_type: model.data_type,
                        kind: RootFieldKind::SelectMany,
                        name: model.name,
                    },
                )
                &&& pair.1.item.field_type == (TypeContainer {
                    base: BaseType::List(
                        Box::new(
                            TypeContainer { base: BaseType::Named(model.data_type), nullable: false },
                        ),
                    ),
                    nullable: true,
                })
                &&& namespace_annotations_for(
                    pair.1.namespace_annotations@,
                    model.role_permissions@,
                )
                &&& pair.1.item.arguments@.len() == (if model.arguments@.len() > 0 {
                    5int
                } else {
                    4int
                })
                &&& is_model_input_field(
                    pair.1.item.arguments@[0],
                    "limit"@,
                    ModelInputAnnotation::ModelLimitArgument,
                    "Int"@,
                    *model,
                )
                &&& is_model_input_field(
                    pair.1.item.arguments@[1],
                    "offset"@,
                    ModelInputAnnotation::ModelOffsetArgument,
                    "Int"@,
                    *model,
                )
                &&& is_model_input_field(
                    pair.1.item.arguments@[2],
                    "order_by"@,
                    ModelInputAnnotation::ModelOrderByExpression,
                    model.order_by_type@,
                    *model,
                )
                &&& is_model_input_field(
                    pair.1.item.arguments@[3],
                    "where"@,
                    ModelInputAnnotation::ModelFilterExpression,
                    model.filter_type@,
                    *model,
                )
                &&& model.arguments@.len() > 0 ==> {
                    let af = pair.1.item.arguments@[4];
                    &&& af.item.name == model.arguments_field_name
                    &&& af.item.annotation == Annotation::Input(
                        InputAnnotation::Model(ModelInputAnnotation::ModelArgumentsExpression),
                    )
                    &&& af.item.field_type == (TypeContainer {
                        base: BaseType::Named(model.arguments_input_type),
                        nullable: false,
                    })
                    &&& namespace_annotations_for(
                        af.namespace_annotations@,
                        model.role_permissions@,
                    )
                }
                &&& forall|i: int, j: int|
                    0 <= i < j < pair.1.item.arguments@.len()
                        ==> (#[trigger] pair.1.item.arguments@[i]).item.name@
                        != (#[trigger] pair.1.item.arguments@[j]).item.name@
            },
        },
{
    let query_root_field = select_many.query_root_field.clone();
    let mut arguments = generate_select_many_arguments(model);

    // Generate the input object bundling the model arguments, when any are
    // declared, and refuse to overwrite an existing argument name with it.
    if model.arguments.len() > 0 {
        let model_arguments_input = get_model_arguments_input_field(model);
        let name = model_arguments_input.name.clone();

        if contains_input_field_name(&arguments, &name) {
            return Err(Error::GraphQlArgumentConflict {
                argument_name: name,
                field_name: query_root_field,
                parent_type: parent_type.clone(),
            });
        }
        proof {
            assert(arguments@[0].item.name@ == "limit"@);
            assert(arguments@[1].item.name@ == "offset"@);
            assert(arguments@[2].item.name@ == "order_by"@);
            assert(arguments@[3].item.name@ == "where"@);
            assert(model.arguments_field_name@ != "limit"@);
            assert(model.arguments_field_name@ != "offset"@);
            assert(model.arguments_field_name@ != "order_by"@);
            assert(model.arguments_field_name@ != "where"@);
        }
        let model_arguments = Namespaced {
            item: model_arguments_input,
            namespace_annotations: get_select_permissions_namespace_annotations(model),
        };
        arguments.push(model_arguments);
    }
    proof {
        reveal_strlit("limit");
        reveal_strlit("offset");
        reveal_strlit("order_by");
        reveal_strlit("where");
        assert("limit"@.len() == 5 && "offset"@.len() == 6 && "order_by"@.len() == 8
            && "where"@.len() == 5);
        assert("limit"@[0] == 'l' && "where"@[0] == 'w');
        assert("limit"@ != "offset"@ && "limit"@ != "order_by"@ && "limit"@ != "where"@
            && "offset"@ != "order_by"@ && "offset"@ != "where"@ && "order_by"@ != "where"@);
        assert forall|i: int, j: int| 0 <= i < j < arguments@.len() implies (#[trigger] arguments@[i]).item.name@
            != (#[trigger] arguments@[j]).item.name@ by {}
    }

    let field_type = TypeContainer::list_null(
        TypeContainer::named_non_null(model.data_type.clone()),
    );

    let field = Namespaced {
        item: Field {
            name: query_root_field.clone(),
            annotation: Annotation::Output(
                OutputAnnotation::RootField {
                    data_type: model.data_type.clone(),
                    kind: RootFieldKind::SelectMany,
                    name: model.name.clone(),
                },
            ),
            field_type,
            arguments,
        },
        namespace_annotations: get_select_permissions_namespace_annotations(model),
    };
    Ok((query_root_field, field))
}

} // verus!
