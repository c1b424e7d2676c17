//! Plain value and GraphQL type shapes shared by the request and schema sides.

use vstd::prelude::*;

verus! {

/// A resolved argument or comparison value: the scalar shapes this compiler
/// ever inspects. Values are carried through compilation unchanged; nothing
/// here interprets them beyond equality.
#[derive(Debug, PartialEq, Eq)]
pub enum Value {
    Null,
    Bool(bool),
    Int(i64),
    Str(String),
}

/// Value equality up to string contents: two values agree when they are the
/// same scalar, comparing strings by their character sequences.
pub open spec fn value_eq(a: Value, b: Value) -> bool {
    match (a, b) {
        (Value::Null, Value::Null) => true,
        (Value::Bool(x), Value::Bool(y)) => x == y,
        (Value::Int(x), Value::Int(y)) => x == y,
        (Value::Str(x), Value::Str(y)) => x@ == y@,
        _ => false,
    }
}

impl Clone for Value {
    fn clone(&self) -> (res: Self)
        ensures
            res == *self,
    {
        match self {
            Value::Null => Value::Null,
            Value::Bool(b) => Value::Bool(*b),
            Value::Int(i) => Value::Int(*i),
            Value::Str(s) => Value::Str(s.clone()),
        }
    }
}

/// The shape of a GraphQL type: a named base type or a list of an inner
/// shape, either of which may be nullable.
#[derive(Debug, PartialEq, Eq)]
pub enum BaseType {
    Named(String),
    List(Box<TypeContainer>),
}

/// A GraphQL type reference as it appears in field signatures.
#[derive(Debug, PartialEq, Eq)]
pub struct TypeContainer {
    pub base: BaseType,
    pub nullable: bool,
}

impl TypeContainer {
    /// The non-nullable named type `name!`.
    pub fn named_non_null(name: String) -> (res: TypeContainer)
        ensures
            res == (TypeContainer { base: BaseType::Named(name), nullable: false }),
    {
        TypeContainer { base: BaseType::Named(name), nullable: false }
    }

    /// The nullable list type `[inner]`.
    pub fn list_null(inner: TypeContainer) -> (res: TypeContainer)
        ensures
            res == (TypeContainer { base: BaseType::List(Box::new(inner)), nullable: true }),
    {
        TypeContainer { base: BaseType::List(Box::new(inner)), nullable: true }
    }
}

impl Clone for TypeContainer {
    fn clone(&self) -> (res: Self)
        ensures
            res == *self,
        decreases *self,
    {
        TypeContainer {
            base: match &self.base {
                BaseType::Named(n) => BaseType::Named(n.clone()),
                BaseType::List(inner) => BaseType::List(Box::new((**inner).clone())),
            },
            nullable: self.nullable,
        }
    }
}

/// Clones a list of names, keeping every element equal to the original.
pub fn clone_string_vec(v: &Vec<String>) -> (res: Vec<String>)
    ensures
        res@ == v@,
{
    let mut out: Vec<String> = Vec::new();
    let mut i: usize = 0;
    while i < v.len()
        invariant
            i <= v.len(),
            out@ == v@.subrange(0, i as int),
        decreases v.len() - i,
    {
        out.push(v[i].clone());
        i = i + 1;
        assert(out@ =~= v@.subrange(0, i as int));
    }
    assert(out@ =~= v@);
    out
}

} // verus!
