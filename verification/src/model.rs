//! The resolved model metadata this compiler reads: argument mappings to the
//! connector, connector-link header presets, and the schema-build
//! configuration of a model with its role permissions.

use vstd::prelude::*;
use crate::permissions::{ArgumentPreset, FilterPermission};

verus! {

/// Maps one logical model argument to its connector-level argument name.
#[derive(Debug, PartialEq, Eq)]
pub struct ArgumentMapping {
    pub argument_name: String,
    pub connector_argument_name: String,
}

/// A connector-link preset: one request header forwarded into a
/// connector-level argument when the request carries it.
#[derive(Debug, PartialEq, Eq)]
pub struct HeaderPreset {
    pub argument_name: String,
    pub header_name: String,
}

/// The connector-facing side of a model: how its arguments reach the
/// connector, and which headers the connector link presets.
#[derive(Debug, PartialEq, Eq)]
pub struct ModelSource {
    pub argument_mappings: Vec<ArgumentMapping>,
    pub data_connector_link_argument_presets: Vec<HeaderPreset>,
}

/// First-match lookup of a logical argument's connector-level name.
pub open spec fn lookup_mapping(s: Seq<ArgumentMapping>, name: Seq<char>) -> Option<String>
    decreases s.len(),
{
    if s.len() == 0 {
        None
    } else if s.first().argument_name@ == name {
        Some(s.first().connector_argument_name)
    } else {
        lookup_mapping(s.drop_first(), name)
    }
}

impl ModelSource {
    /// The connector-level name of the logical argument, if mapped.
    #[verifier::loop_isolation(false)]
    pub fn connector_argument_name(&self, name: &String) -> (res: Option<String>)
        ensures
            res == lookup_mapping(self.argument_mappings@, name@),
    {
        let mappings = &self.argument_mappings;
        let mut i: usize = 0;
        proof {
            assert(mappings@.skip(0) =~= mappings@);
        }
        while i < mappings.len()
            invariant
                i <= mappings.len(),
                lookup_mapping(mappings@, name@) == lookup_mapping(mappings@.skip(i as int), name@),
            decreases mappings.len() - i,
        {
            proof {
                assert(mappings@.skip(i as int).first() == mappings@[i as int]);
            }
            if mappings[i].argument_name.eq(name) {
                return Some(mappings[i].connector_argument_name.clone());
            }
            i = i + 1;
            proof {
                assert(mappings@.skip(i as int - 1).drop_first() =~= mappings@.skip(i as int));
            }
        }
        proof {
            assert(mappings@.skip(mappings@.len() as int) =~= Seq::<ArgumentMapping>::empty());
        }
        None
    }
}

/// One declared model-specific argument.
#[derive(Debug, PartialEq, Eq)]
pub struct ArgumentDefinition {
    pub argument_name: String,
    pub argument_type: String,
}

/// One role's select permission on a model: the preset argument bindings it
/// injects and the row filter it imposes.
#[derive(Debug, PartialEq, Eq)]
pub struct RoleSelectPermission {
    pub role: String,
    pub argument_presets: Vec<ArgumentPreset>,
    pub filter: FilterPermission,
}

/// The select-many surface a model advertises.
#[derive(Debug, PartialEq, Eq)]
pub struct SelectManyGraphQlDefinition {
    pub query_root_field: String,
}

/// A schema-built model with its permissions: everything the field schema
/// builder reads.
#[derive(Debug, PartialEq, Eq)]
pub struct ModelWithPermissions {
    pub name: String,
    pub data_type: String,
    pub arguments: Vec<ArgumentDefinition>,
    pub arguments_field_name: String,
    pub arguments_input_type: String,
    pub order_by_type: String,
    pub filter_type: String,
    pub role_permissions: Vec<RoleSelectPermission>,
    pub source: ModelSource,
}

} // verus!
