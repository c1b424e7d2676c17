//! Compiling a select-one operation: one field invocation that fetches zero
//! or one row of a model by its unique identifier.
//!
//! Select-one is a constrained specialization of model selection: the
//! produced node never carries a user-supplied limit, offset or order-by,
//! and its derived filter is exactly the conjunction of the equalities its
//! unique-identifier arguments induce.

use vstd::prelude::*;
use crate::GraphqlRequestPipeline;
use crate::arguments::{
    Argument, ArgumentMap, build_ndc_argument_as_value, contains_argument_name,
    process_argument_presets, spec_apply_header_presets, spec_apply_presets,
};
use crate::error::Error;
use crate::filter::{
    QueryFilter, is_column_filter_for, is_structured_filter_for, unique_identifier_filter_column,
    unique_identifier_filter_structured,
};
use crate::model::{ArgumentMapping, ModelSource, lookup_mapping};
use crate::model_selection::{
    ModelSelection, ModelSelectionOpenDd, model_selection_ir, model_selection_open_dd_ir,
};
use crate::permissions::{
    ArgumentPreset, NamespaceAnnotation, RequestHeaders, SessionVariables, filter_permission_eqv,
    get_argument_presets, get_select_filter_predicate,
};
use crate::request::{
    ArgumentValue, Field, FieldCall, classify_field_arguments, spec_classify_error,
    spec_model_arguments, spec_unique_identifier_components,
};
use crate::types::TypeContainer;
use crate::usage::UsagesCounts;

verus! {

/// The compiled selection of a select-one operation, in the dialect the
/// request pipeline selected.
#[derive(Debug, PartialEq, Eq)]
pub enum ModelSelectOneSelection {
    Ir(ModelSelection),
    OpenDd(ModelSelectionOpenDd),
}

/// The compiled result of one select-one field invocation: the field's
/// published name, its selection, its output type, and every model and
/// command the compilation referenced.
#[derive(Debug, PartialEq, Eq)]
pub struct ModelSelectOne {
    pub field_name: String,
    pub model_selection: ModelSelectOneSelection,
    pub type_container: TypeContainer,
    pub usage_counts: UsagesCounts,
}

/// The fold resolving the classified model arguments in order: each logical
/// name must map to a connector name, and two arguments resolving to the
/// same connector name are a hard conflict, never a silent overwrite.
pub open spec fn spec_resolve_model_arguments(
    args: Seq<ArgumentValue>,
    mappings: Seq<ArgumentMapping>,
    field_name: String,
    data_type: String,
) -> Result<Seq<Argument>, Error>
    decreases args.len(),
{
    if args.len() == 0 {
        Ok(Seq::empty())
    } else {
        match spec_resolve_model_arguments(args.drop_last(), mappings, field_name, data_type) {
            Err(e) => Err(e),
            Ok(prev) => {
                let a = args.last();
                match lookup_mapping(mappings, a.name@) {
                    None => Err(Error::ArgumentMappingNotFound { argument_name: a.name }),
                    Some(ndc) => if contains_argument_name(prev, ndc@) {
                        Err(Error::GraphQlArgumentConflict {
                            argument_name: ndc,
                            field_name: field_name,
                            parent_type: data_type,
                        })
                    } else {
                        Ok(prev.push(Argument { name: ndc, value: a.value }))
                    },
                }
            },
        }
    }
}

/// A failed resolution fold stays failed however many arguments follow.
proof fn lemma_resolve_err_extends(
    args: Seq<ArgumentValue>,
    mappings: Seq<ArgumentMapping>,
    field_name: String,
    data_type: String,
    k: int,
)
    requires
        0 <= k <= args.len(),
        spec_resolve_model_arguments(args.subrange(0, k), mappings, field_name, data_type) is Err,
    ensures
        spec_resolve_model_arguments(args, mappings, field_name, data_type)
            == spec_resolve_model_arguments(args.subrange(0, k), mappings, field_name, data_type),
    decreases args.len() - k,
{
    if k == args.len() {
        assert(args.subrange(0, k) =~= args);
    } else {
        assert(args.subrange(0, k + 1).drop_last() =~= args.subrange(0, k));
        lemma_resolve_err_extends(args, mappings, field_name, data_type, k + 1);
    }
}

/// The preset bindings a field call's annotation grants.
pub open spec fn spec_presets_of(n: Option<NamespaceAnnotation>) -> Result<Seq<ArgumentPreset>, Error> {
    match n {
        None => Ok(Seq::empty()),
        Some(NamespaceAnnotation::Model { argument_presets, .. }) => Ok(argument_presets@),
        Some(NamespaceAnnotation::Command) => Err(Error::UnexpectedNamespaceAnnotation),
    }
}

/// The first failure a select-one compilation hits, if any: argument
/// classification, model-argument resolution, preset reading and merging,
/// and — for the legacy pipeline only, which must derive the role's row
/// filter here — the permission annotation's shape.
pub open spec fn spec_select_one_error(
    request_pipeline: GraphqlRequestPipeline,
    field_call: FieldCall,
    data_type: String,
    model_source: ModelSource,
    session: Seq<(String, String)>,
) -> Option<Error> {
    let args = field_call.arguments@;
    if spec_classify_error(args, field_call.name) is Some {
        spec_classify_error(args, field_call.name)
    } else {
        match spec_resolve_model_arguments(
            spec_model_arguments(args),
            model_source.argument_mappings@,
            field_call.name,
            data_type,
        ) {
            Err(e) => Some(e),
            Ok(user_entries) => match spec_presets_of(field_call.namespaced) {
                Err(e) => Some(e),
                Ok(presets) => match spec_apply_presets(
                    user_entries,
                    presets,
                    model_source.argument_mappings@,
                    session,
                ) {
                    Err(e) => Some(e),
                    Ok(_) => match request_pipeline {
                        GraphqlRequestPipeline::OpenDd => None,
                        GraphqlRequestPipeline::Old => match field_call.namespaced {
                            Some(NamespaceAnnotation::Model { .. }) => None,
                            Some(NamespaceAnnotation::Command) => Some(
                                Error::UnexpectedNamespaceAnnotation,
                            ),
                            None => Some(Error::FilterPermissionNotFound),
                        },
                    },
                },
            },
        }
    }
}

/// The argument map a successful select-one compilation hands the legacy
/// selection: the user's resolved model arguments with the role's presets
/// merged over them and the connector-link header bindings applied last.
pub open spec fn spec_select_one_arguments(
    field_call: FieldCall,
    data_type: String,
    model_source: ModelSource,
    session: Seq<(String, String)>,
    headers: Seq<(String, String)>,
) -> Seq<Argument> {
    spec_apply_header_presets(
        spec_apply_presets(
            spec_resolve_model_arguments(
                spec_model_arguments(field_call.arguments@),
                model_source.argument_mappings@,
                field_call.name,
                data_type,
            )->Ok_0,
            spec_presets_of(field_call.namespaced)->Ok_0,
            model_source.argument_mappings@,
            session,
        )->Ok_0,
        model_source.data_connector_link_argument_presets@,
        headers,
    )
}

/// Generates the IR for a select-one operation.
///
/// On success the node records exactly one reference to the root model, its
/// filter is exactly the conjunction of the equalities derived from the
/// unique-identifier arguments, and it carries no user-supplied limit,
/// offset or order-by — in either dialect. Every failure of classification,
/// resolution, preset merging or permission reading aborts the compilation
/// with that failure, and nothing else does.
#[verifier::loop_isolation(false)]
pub fn select_one_generate_ir(
    request_pipeline: GraphqlRequestPipeline,
    field: &Field,
    field_call: &FieldCall,
    data_type: &String,
    model_source: &ModelSource,
    session_variables: &SessionVariables,
    request_headers: &RequestHeaders,
    model_name: &String,
) -> (res: Result<ModelSelectOne, Error>)
    ensures
        match res {
            Err(e) => spec_select_one_error(
                request_pipeline,
                *field_call,
                *data_type,
                *model_source,
                session_variables.vars@,
            ) == Some(e),
            Ok(r) => {
                &&& spec_select_one_error(
                    request_pipeline,
                    *field_call,
                    *data_type,
                    *model_source,
                    session_variables.vars@,
                ) is None
                &&& r.field_name == field_call.name
                &&& r.type_container == field.type_container
                &&& r.usage_counts.wf()
                &&& forall|m: Seq<char>|
                    r.usage_counts.model_count(m) == (if m == model_name@ { 1int } else { 0int })
                &&& r.usage_counts.commands_used@.len() == 0
                &&& match request_pipeline {
                    GraphqlRequestPipeline::OpenDd => {
                        &&& r.model_selection matches ModelSelectOneSelection::OpenDd(sel)
                        &&& sel.model_name == *model_name
                        &&& sel.data_type == *data_type
                        &&& is_structured_filter_for(
                            sel.where_clause,
                            spec_unique_identifier_components(field_call.arguments@),
                        )
                        &&& sel.limit is None
                        &&& sel.offset is None
                        &&& sel.selection@ == field.selection_set@
                    },
                    GraphqlRequestPipeline::Old => {
                        &&& r.model_selection matches ModelSelectOneSelection::Ir(sel)
                        &&& sel.data_type == *data_type
                        &&& sel.arguments.entries@ == spec_select_one_arguments(
                            *field_call,
                            *data_type,
                            *model_source,
                            session_variables.vars@,
                            request_headers.headers@,
                        )
                        &&& sel.arguments.wf()
                        &&& sel.query_filter.where_clause is None
                        &&& is_column_filter_for(
                            sel.query_filter.additional_filter,
                            spec_unique_identifier_components(field_call.arguments@),
                        )
                        &&& (field_call.namespaced matches Some(
                            NamespaceAnnotation::Model { filter, .. },
                        ) && filter_permission_eqv(sel.permission_filter, filter))
                        &&& sel.limit is None
                        &&& sel.offset is None
                        &&& sel.order_by is None
                        &&& sel.selection@ == field.selection_set@
                    },
                }
            },
        },
{
    let parts = match classify_field_arguments(field_call) {
        Ok(parts) => parts,
        Err(e) => {
            return Err(e);
        },
    };
    let model_argument_fields = parts.0;
    let unique_identifier_arguments = parts.1;
    let ghost margs = spec_model_arguments(field_call.arguments@);
    let ghost mappings = model_source.argument_mappings@;

    // Record the root model.
    let mut usage_counts = UsagesCounts::new();
    crate::usage::count_model(model_name, &mut usage_counts);

    // Resolve the plain model arguments to connector-level bindings.
    let mut model_arguments = ArgumentMap::new();
    let mut i: usize = 0;
    proof {
        assert(margs.subrange(0, 0) =~= Seq::<ArgumentValue>::empty());
        assert(model_arguments.entries@ =~= Seq::<Argument>::empty());
    }
    while i < model_argument_fields.len()
        invariant
            i <= margs.len(),
            model_argument_fields@ == margs,
            spec_resolve_model_arguments(margs.subrange(0, i as int), mappings, field_call.name, *data_type)
                == Ok::<Seq<Argument>, Error>(model_arguments.entries@),
            model_arguments.wf(),
            usage_counts.wf(),
            forall|m: Seq<char>|
                usage_counts.model_count(m) == (if m == model_name@ { 1int } else { 0int }),
            usage_counts.commands_used@.len() == 0,
        decreases margs.len() - i,
    {
        proof {
            assert(margs.subrange(0, i as int + 1).drop_last() =~= margs.subrange(0, i as int));
            assert(margs.subrange(0, i as int + 1).last() == margs[i as int]);
        }
        match build_ndc_argument_as_value(
            &field_call.name,
            &model_argument_fields[i],
            model_source,
            session_variables,
            &mut usage_counts,
        ) {
            Err(e) => {
                proof {
                    lemma_resolve_err_extends(margs, mappings, field_call.name, *data_type, i as int + 1);
                }
                return Err(e);
            },
            Ok(resolved) => {
                let ndc_arg_name = resolved.0;
                let ndc_val = resolved.1;
                if model_arguments.contains_argument(&ndc_arg_name) {
                    let e = Error::GraphQlArgumentConflict {
                        argument_name: ndc_arg_name,
                        field_name: field_call.name.clone(),
                        parent_type: data_type.clone(),
                    };
                    proof {
                        lemma_resolve_err_extends(margs, mappings, field_call.name, *data_type, i as int + 1);
                    }
                    return Err(e);
                }
                let ghost before = model_arguments.entries@;
                model_arguments.insert(ndc_arg_name, ndc_val);
                proof {
                    assert forall|p: int, q: int|
                        0 <= p < q < model_arguments.entries@.len() implies model_arguments.entries@[p].name@
                        != model_arguments.entries@[q].name@ by {
                        if q == model_arguments.entries@.len() - 1 {
                            assert(!contains_argument_name(before, model_arguments.entries@[q].name@));
                        }
                    }
                }
            },
        }
        i = i + 1;
    }
    proof {
        assert(margs.subrange(0, margs.len() as int) =~= margs);
    }

    // Read the role's presets and merge them over the user's arguments.
    let argument_presets = match get_argument_presets(field_call.namespaced.as_ref()) {
        Ok(p) => p,
        Err(e) => {
            return Err(e);
        },
    };
    proof {
        if field_call.namespaced is None {
            assert(argument_presets@ =~= Seq::<ArgumentPreset>::empty());
        }
    }
    let ghost user_entries = model_arguments.entries@;
    let merged_arguments = match process_argument_presets(
        model_source,
        &argument_presets,
        session_variables,
        request_headers,
        model_arguments,
        &mut usage_counts,
    ) {
        Ok(m) => m,
        Err(e) => {
            return Err(e);
        },
    };
    proof {
        crate::arguments::lemma_apply_presets_wf(
            user_entries,
            argument_presets@,
            mappings,
            session_variables.vars@,
        );
        crate::arguments::lemma_apply_header_presets_wf(
            spec_apply_presets(user_entries, argument_presets@, mappings, session_variables.vars@)->Ok_0,
            model_source.data_connector_link_argument_presets@,
            request_headers.headers@,
        );
    }

    match request_pipeline {
        GraphqlRequestPipeline::OpenDd => {
            let where_clause = unique_identifier_filter_structured(&unique_identifier_arguments);
            let sel = model_selection_open_dd_ir(
                &field.selection_set,
                data_type,
                model_name,
                where_clause,
                None,
                None,
            );
            Ok(ModelSelectOne {
                field_name: field_call.name.clone(),
                model_selection: ModelSelectOneSelection::OpenDd(sel),
                type_container: field.type_container.clone(),
                usage_counts,
            })
        },
        GraphqlRequestPipeline::Old => {
            let additional_filter = unique_identifier_filter_column(&unique_identifier_arguments);
            let query_filter = QueryFilter { where_clause: None, additional_filter };
            let permission_filter = match get_select_filter_predicate(field_call.namespaced.as_ref()) {
                Ok(f) => f,
                Err(e) => {
                    return Err(e);
                },
            };
            let sel = model_selection_ir(
                &field.selection_set,
                data_type,
                merged_arguments,
                query_filter,
                permission_filter,
                None,
                None,
                None,
            );
            Ok(ModelSelectOne {
                field_name: field_call.name.clone(),
                model_selection: ModelSelectOneSelection::Ir(sel),
                type_container: field.type_container.clone(),
                usage_counts,
            })
        },
    }
}

} // verus!
