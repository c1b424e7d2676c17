//! The compiled selection nodes, one per IR dialect, and their assembly.
//!
//! Resolution of the nested selection set — relationship traversal, which
//! reads the session and headers and records further model references — is
//! an external collaborator of this compiler. Here the normalized selection
//! is carried through unchanged and the node is assembled from parts this
//! compiler has already validated, so assembly itself cannot fail.

use vstd::prelude::*;
use crate::arguments::ArgumentMap;
use crate::filter::{BooleanExpression, QueryFilter};
use crate::permissions::{FilterPermission, clone_filter_permission, filter_permission_eqv};
use crate::types::clone_string_vec;

verus! {

/// One requested ordering key; select-one never produces any.
#[derive(Debug, PartialEq, Eq)]
pub struct OrderByElement {
    pub field_name: String,
    pub descending: bool,
}

/// The legacy, column-oriented selection node.
#[derive(Debug, PartialEq, Eq)]
pub struct ModelSelection {
    pub data_type: String,
    pub arguments: ArgumentMap,
    pub query_filter: QueryFilter,
    pub permission_filter: FilterPermission,
    pub limit: Option<u32>,
    pub offset: Option<u32>,
    pub order_by: Option<Vec<OrderByElement>>,
    pub selection: Vec<String>,
}

/// The structured, connector-agnostic selection node. The structured
/// pipeline resolves model arguments within the nested-selection
/// collaborator, so the node carries no argument map here.
#[derive(Debug, PartialEq, Eq)]
pub struct ModelSelectionOpenDd {
    pub model_name: String,
    pub data_type: String,
    pub where_clause: Option<BooleanExpression>,
    pub limit: Option<u32>,
    pub offset: Option<u32>,
    pub selection: Vec<String>,
}

/// Assembles a legacy selection node: every part lands unchanged in the
/// node it belongs to, and the node owns its data.
pub fn model_selection_ir(
    selection_set: &Vec<String>,
    data_type: &String,
    model_arguments: ArgumentMap,
    query_filter: QueryFilter,
    permission_filter: &FilterPermission,
    limit: Option<u32>,
    offset: Option<u32>,
    order_by: Option<Vec<OrderByElement>>,
) -> (res: ModelSelection)
    ensures
        res.data_type == *data_type,
        res.arguments == model_arguments,
        res.query_filter == query_filter,
        filter_permission_eqv(res.permission_filter, *permission_filter),
        res.limit == limit,
        res.offset == offset,
        res.order_by == order_by,
        res.selection@ == selection_set@,
{
    ModelSelection {
        data_type: data_type.clone(),
        arguments: model_arguments,
        query_filter,
        permission_filter: clone_filter_permission(permission_filter),
        limit,
        offset,
        order_by,
        selection: clone_string_vec(selection_set),
    }
}

/// Assembles a structured selection node: the derived where clause with
/// explicitly absent limit and offset.
pub fn model_selection_open_dd_ir(
    selection_set: &Vec<String>,
    data_type: &String,
    model_name: &String,
    where_clause: Option<BooleanExpression>,
    limit: Option<u32>,
    offset: Option<u32>,
) -> (res: ModelSelectionOpenDd)
    ensures
        res.model_name == *model_name,
        res.data_type == *data_type,
        res.where_clause == where_clause,
        res.limit == limit,
        res.offset == offset,
        res.selection@ == selection_set@,
{
    ModelSelectionOpenDd {
        model_name: model_name.clone(),
        data_type: data_type.clone(),
        where_clause,
        limit,
        offset,
        selection: clone_string_vec(selection_set),
    }
}

} // verus!
