//! Role-scoped permission data and its request-time readers: the namespace
//! annotation a field call carries for the caller's role, the preset
//! argument bindings it grants, and the row filter it imposes.

use vstd::prelude::*;
use crate::error::Error;
use crate::filter::Expression;
use crate::types::Value;

verus! {

/// First-match lookup in an ordered name/value pair list, returning the
/// stored value.
pub open spec fn lookup_pair(s: Seq<(String, String)>, name: Seq<char>) -> Option<String>
    decreases s.len(),
{
    if s.len() == 0 {
        None
    } else if s.first().0@ == name {
        Some(s.first().1)
    } else {
        lookup_pair(s.drop_first(), name)
    }
}

/// Finds the first pair named `name` and returns a copy of its value.
#[verifier::loop_isolation(false)]
fn lookup_pair_vec(v: &Vec<(String, String)>, name: &String) -> (res: Option<String>)
    ensures
        res == lookup_pair(v@, name@),
{
    let mut i: usize = 0;
    proof {
        assert(v@.skip(0) =~= v@);
    }
    while i < v.len()
        invariant
            i <= v.len(),
            lookup_pair(v@, name@) == lookup_pair(v@.skip(i as int), name@),
        decreases v.len() - i,
    {
        proof {
            assert(v@.skip(i as int).first() == v@[i as int]);
        }
        if v[i].0.eq(name) {
            return Some(v[i].1.clone());
        }
        i = i + 1;
        proof {
            assert(v@.skip(i as int - 1).drop_first() =~= v@.skip(i as int));
        }
    }
    proof {
        assert(v@.skip(v@.len() as int) =~= Seq::<(String, String)>::empty());
    }
    None
}

/// The caller's session context: named session variables, read only when a
/// preset refers to one.
#[derive(Debug, PartialEq, Eq)]
pub struct SessionVariables {
    pub vars: Vec<(String, String)>,
}

impl SessionVariables {
    /// The value of the session variable, if the session defines it.
    pub fn get(&self, name: &String) -> (res: Option<String>)
        ensures
            res == lookup_pair(self.vars@, name@),
    {
        lookup_pair_vec(&self.vars, name)
    }
}

/// Request-scoped headers: opaque key-value data this compiler never
/// interprets, forwarded only to preset resolution.
#[derive(Debug, PartialEq, Eq)]
pub struct RequestHeaders {
    pub headers: Vec<(String, String)>,
}

impl RequestHeaders {
    /// The value of the header, if the request carries it.
    pub fn get(&self, name: &String) -> (res: Option<String>)
        ensures
            res == lookup_pair(self.headers@, name@),
    {
        lookup_pair_vec(&self.headers, name)
    }
}

/// How a preset argument's value is produced: a literal, or the value of a
/// session variable at request time.
#[derive(Debug, PartialEq, Eq)]
pub enum ValueExpression {
    Literal(Value),
    SessionVariable(String),
}

impl Clone for ValueExpression {
    fn clone(&self) -> (res: Self)
        ensures
            res == *self,
    {
        match self {
            ValueExpression::Literal(v) => ValueExpression::Literal(v.clone()),
            ValueExpression::SessionVariable(n) => ValueExpression::SessionVariable(n.clone()),
        }
    }
}

/// One server-injected argument binding granted by the caller's role. The
/// argument name is the model's logical argument name.
#[derive(Debug, PartialEq, Eq)]
pub struct ArgumentPreset {
    pub argument_name: String,
    pub value: ValueExpression,
}

impl Clone for ArgumentPreset {
    fn clone(&self) -> (res: Self)
        ensures
            res == *self,
    {
        ArgumentPreset { argument_name: self.argument_name.clone(), value: self.value.clone() }
    }
}

/// The value a preset resolves to in a given session: a literal stands for
/// itself, a session-variable reference for the variable's value, and a
/// reference to an undefined variable is a hard failure.
pub open spec fn spec_resolve_value_expression(v: ValueExpression, session: Seq<(String, String)>) -> Result<
    Value,
    Error,
> {
    match v {
        ValueExpression::Literal(x) => Ok(x),
        ValueExpression::SessionVariable(n) => match lookup_pair(session, n@) {
            Some(w) => Ok(Value::Str(w)),
            None => Err(Error::SessionVariableNotFound { variable_name: n }),
        },
    }
}

/// Resolves one preset value against the session.
pub fn resolve_value_expression(v: &ValueExpression, session: &SessionVariables) -> (res: Result<
    Value,
    Error,
>)
    ensures
        res == spec_resolve_value_expression(*v, session.vars@),
{
    match v {
        ValueExpression::Literal(x) => Ok(x.clone()),
        ValueExpression::SessionVariable(n) => match session.get(n) {
            Some(w) => Ok(Value::Str(w)),
            None => Err(Error::SessionVariableNotFound { variable_name: n.clone() }),
        },
    }
}

/// The row filter a role's select permission imposes: everything, or the
/// rows a predicate accepts.
#[derive(Debug, PartialEq, Eq)]
pub enum FilterPermission {
    AllowAll,
    Filter(Expression),
}

/// Structural equality of predicate trees: the same shape with the same
/// columns, operators and values, comparing strings by contents.
pub open spec fn expr_eqv(a: Expression, b: Expression) -> bool
    decreases a,
{
    match (a, b) {
        (Expression::And(xs), Expression::And(ys)) => xs@.len() == ys@.len() && forall|i: int|
            0 <= i < xs@.len() ==> expr_eqv(#[trigger] xs@[i], ys@[i]),
        (
            Expression::BinaryComparison { column: c1, operator: o1, value: v1 },
            Expression::BinaryComparison { column: c2, operator: o2, value: v2 },
        ) => c1@ == c2@ && o1@ == o2@ && v1 == v2,
        _ => false,
    }
}

/// Structural equality of permission filters.
pub open spec fn filter_permission_eqv(a: FilterPermission, b: FilterPermission) -> bool {
    match (a, b) {
        (FilterPermission::AllowAll, FilterPermission::AllowAll) => true,
        (FilterPermission::Filter(x), FilterPermission::Filter(y)) => expr_eqv(x, y),
        _ => false,
    }
}

/// Copies a predicate tree, preserving its structure exactly.
#[verifier::loop_isolation(false)]
pub fn clone_expression(e: &Expression) -> (res: Expression)
    ensures
        expr_eqv(res, *e),
    decreases *e,
{
    match e {
        Expression::BinaryComparison { column, operator, value } => Expression::BinaryComparison {
            column: column.clone(),
            operator: operator.clone(),
            value: value.clone(),
        },
        Expression::And(es) => {
            let mut out: Vec<Expression> = Vec::new();
            let mut i: usize = 0;
            while i < es.len()
                invariant
                    i <= es.len(),
                    out@.len() == i,
                    forall|j: int| 0 <= j < i ==> expr_eqv(#[trigger] out@[j], es@[j]),
                decreases es.len() - i,
            {
                let c = clone_expression(&es[i]);
                out.push(c);
                i = i + 1;
            }
            Expression::And(out)
        },
    }
}

/// Copies a permission filter, preserving its structure exactly.
pub fn clone_filter_permission(f: &FilterPermission) -> (res: FilterPermission)
    ensures
        filter_permission_eqv(res, *f),
{
    match f {
        FilterPermission::AllowAll => FilterPermission::AllowAll,
        FilterPermission::Filter(e) => FilterPermission::Filter(clone_expression(e)),
    }
}

/// The permission annotation attached to a schema item for one role. A
/// model-backed field carries the `Model` shape; any other shape reaching a
/// model compilation path is a version-mismatch defect.
#[derive(Debug, PartialEq, Eq)]
pub enum NamespaceAnnotation {
    Model { argument_presets: Vec<ArgumentPreset>, filter: FilterPermission },
    Command,
}

/// Copies a preset list, keeping every binding equal to the original.
#[verifier::loop_isolation(false)]
pub fn clone_argument_presets(presets: &Vec<ArgumentPreset>) -> (res: Vec<ArgumentPreset>)
    ensures
        res@ == presets@,
{
    let mut out: Vec<ArgumentPreset> = Vec::new();
    let mut i: usize = 0;
    while i < presets.len()
        invariant
            i <= presets.len(),
            out@ == presets@.subrange(0, i as int),
        decreases presets.len() - i,
    {
        out.push(presets[i].clone());
        i = i + 1;
        proof {
            assert(out@ =~= presets@.subrange(0, i as int));
        }
    }
    proof {
        assert(presets@.subrange(0, presets@.len() as int) =~= presets@);
    }
    out
}

/// The preset argument bindings a field call grants the caller's role: none
/// when the field carries no annotation, the model annotation's presets
/// otherwise. A non-model annotation is an unexpected-annotation failure.
pub fn get_argument_presets(namespaced: Option<&NamespaceAnnotation>) -> (res: Result<
    Vec<ArgumentPreset>,
    Error,
>)
    ensures
        match namespaced {
            None => res matches Ok(v) && v@.len() == 0,
            Some(a) => match *a {
                NamespaceAnnotation::Model { argument_presets, .. } => res matches Ok(v) && v@
                    == argument_presets@,
                NamespaceAnnotation::Command => res == Err::<Vec<ArgumentPreset>, Error>(
                    Error::UnexpectedNamespaceAnnotation,
                ),
            },
        },
{
    match namespaced {
        None => Ok(Vec::new()),
        Some(NamespaceAnnotation::Model { argument_presets, .. }) => Ok(
            clone_argument_presets(argument_presets),
        ),
        Some(NamespaceAnnotation::Command) => Err(Error::UnexpectedNamespaceAnnotation),
    }
}

/// The row filter the caller's role imposes on this field. A field call
/// without an annotation has no derivable filter; a non-model annotation is
/// an unexpected-annotation failure.
pub fn get_select_filter_predicate<'a>(namespaced: Option<&'a NamespaceAnnotation>) -> (res: Result<
    &'a FilterPermission,
    Error,
>)
    ensures
        match namespaced {
            None => res == Err::<&'a FilterPermission, Error>(Error::FilterPermissionNotFound),
            Some(a) => match *a {
                NamespaceAnnotation::Model { filter, .. } => res matches Ok(f) && *f == filter,
                NamespaceAnnotation::Command => res == Err::<&'a FilterPermission, Error>(
                    Error::UnexpectedNamespaceAnnotation,
                ),
            },
        },
{
    match namespaced {
        None => Err(Error::FilterPermissionNotFound),
        Some(NamespaceAnnotation::Model { filter, .. }) => Ok(filter),
        Some(NamespaceAnnotation::Command) => Err(Error::UnexpectedNamespaceAnnotation),
    }
}

} // verus!
