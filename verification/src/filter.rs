//! Filter predicates over rows, in the two IR dialects, and the builders
//! that turn unique-identifier lookups into them.
//!
//! Each unique-identifier component becomes one equality comparison. Several
//! components are combined with logical AND, a single one is used directly,
//! and none means no additional filter at all. The structured dialect
//! compares by logical field name; the column dialect compares by connector
//! column with the column's designated equality operator.

use vstd::prelude::*;
use crate::annotation::UniqueIdentifierComponent;
use crate::types::{Value, value_eq};

verus! {

/// Comparison operators of the structured dialect.
#[derive(Clone, Copy, PartialEq, Eq, Structural, Debug)]
pub enum ComparisonOperator {
    Equals,
    NotEquals,
}

/// A predicate tree of the structured, connector-agnostic dialect: field
/// comparisons under conjunction.
#[derive(Debug, PartialEq, Eq)]
pub enum BooleanExpression {
    And(Vec<BooleanExpression>),
    Comparison { field_name: String, operator: ComparisonOperator, value: Value },
}

/// A predicate tree of the column-oriented legacy dialect: connector-column
/// comparisons under conjunction. The operator is the connector's own token
/// for the comparison; the builders here only ever emit a column's
/// designated equality operator.
#[derive(Debug, PartialEq, Eq)]
pub enum Expression {
    And(Vec<Expression>),
    BinaryComparison { column: String, operator: String, value: Value },
}

/// The filter slot of a legacy selection: the client's own where clause and
/// the filter this compiler derives in addition to it.
#[derive(Debug, PartialEq, Eq)]
pub struct QueryFilter {
    pub where_clause: Option<Expression>,
    pub additional_filter: Option<Expression>,
}

/// A row as the structured dialect sees it: values by logical field name.
/// A row as the legacy dialect sees it: values by connector column. Both are
/// partial maps; a comparison against an absent cell rejects the row.
pub open spec fn eval_structured(e: BooleanExpression, row: Map<Seq<char>, Value>) -> bool
    decreases e,
{
    match e {
        BooleanExpression::And(es) => forall|i: int|
            0 <= i < es@.len() ==> eval_structured(#[trigger] es@[i], row),
        BooleanExpression::Comparison { field_name, operator, value } => match operator {
            ComparisonOperator::Equals => row.contains_key(field_name@) && value_eq(
                row[field_name@],
                value,
            ),
            ComparisonOperator::NotEquals => row.contains_key(field_name@) && !value_eq(
                row[field_name@],
                value,
            ),
        },
    }
}

/// Evaluation of a legacy predicate over a row keyed by connector column.
/// A comparison node carries the column's designated equality operator, so
/// it accepts exactly the rows whose cell equals the compared value.
pub open spec fn eval_column(e: Expression, row: Map<Seq<char>, Value>) -> bool
    decreases e,
{
    match e {
        Expression::And(es) => forall|i: int|
            0 <= i < es@.len() ==> eval_column(#[trigger] es@[i], row),
        Expression::BinaryComparison { column, operator, value } => row.contains_key(column@)
            && value_eq(row[column@], value),
    }
}

/// An absent filter narrows nothing: it accepts every row.
pub open spec fn eval_structured_opt(e: Option<BooleanExpression>, row: Map<Seq<char>, Value>) -> bool {
    match e {
        None => true,
        Some(x) => eval_structured(x, row),
    }
}

/// An absent filter narrows nothing: it accepts every row.
pub open spec fn eval_column_opt(e: Option<Expression>, row: Map<Seq<char>, Value>) -> bool {
    match e {
        None => true,
        Some(x) => eval_column(x, row),
    }
}

/// The structured equality comparison one unique-identifier component
/// compiles to.
pub open spec fn spec_structured_comparison(c: UniqueIdentifierComponent) -> BooleanExpression {
    BooleanExpression::Comparison {
        field_name: c.field_name,
        operator: ComparisonOperator::Equals,
        value: c.value,
    }
}

/// The column equality comparison one unique-identifier component compiles
/// to: the connector column with its designated equality operator.
pub open spec fn spec_column_comparison(c: UniqueIdentifierComponent) -> Expression {
    Expression::BinaryComparison {
        column: c.ndc_column.column,
        operator: c.ndc_column.equal_operator,
        value: c.value,
    }
}

/// `r` is exactly the structured filter for the components: no filter for
/// none, the single comparison for one, their conjunction in order for more.
pub open spec fn is_structured_filter_for(
    r: Option<BooleanExpression>,
    comps: Seq<UniqueIdentifierComponent>,
) -> bool {
    if comps.len() == 0 {
        r is None
    } else if comps.len() == 1 {
        r == Some(spec_structured_comparison(comps[0]))
    } else {
        match r {
            Some(BooleanExpression::And(es)) => es@.len() == comps.len() && forall|i: int|
                0 <= i < comps.len() ==> es@[i] == spec_structured_comparison(#[trigger] comps[i]),
            _ => false,
        }
    }
}

/// `r` is exactly the column filter for the components.
pub open spec fn is_column_filter_for(
    r: Option<Expression>,
    comps: Seq<UniqueIdentifierComponent>,
) -> bool {
    if comps.len() == 0 {
        r is None
    } else if comps.len() == 1 {
        r == Some(spec_column_comparison(comps[0]))
    } else {
        match r {
            Some(Expression::And(es)) => es@.len() == comps.len() && forall|i: int|
                0 <= i < comps.len() ==> es@[i] == spec_column_comparison(#[trigger] comps[i]),
            _ => false,
        }
    }
}

fn structured_comparison(c: &UniqueIdentifierComponent) -> (res: BooleanExpression)
    ensures
        res == spec_structured_comparison(*c),
{
    BooleanExpression::Comparison {
        field_name: c.field_name.clone(),
        operator: ComparisonOperator::Equals,
        value: c.value.clone(),
    }
}

fn column_comparison(c: &UniqueIdentifierComponent) -> (res: Expression)
    ensures
        res == spec_column_comparison(*c),
{
    Expression::BinaryComparison {
        column: c.ndc_column.column.clone(),
        operator: c.ndc_column.equal_operator.clone(),
        value: c.value.clone(),
    }
}

/// Builds the structured-dialect filter from the unique-identifier
/// components collected for one field invocation.
#[verifier::loop_isolation(false)]
pub fn unique_identifier_filter_structured(comps: &Vec<UniqueIdentifierComponent>) -> (res: Option<
    BooleanExpression,
>)
    ensures
        is_structured_filter_for(res, comps@),
{
    if comps.len() == 0 {
        None
    } else if comps.len() == 1 {
        Some(structured_comparison(&comps[0]))
    } else {
        let mut es: Vec<BooleanExpression> = Vec::new();
        let mut i: usize = 0;
        while i < comps.len()
            invariant
                i <= comps.len(),
                es@.len() == i,
                forall|j: int| 0 <= j < i ==> es@[j] == spec_structured_comparison(#[trigger] comps@[j]),
            decreases comps.len() - i,
        {
            es.push(structured_comparison(&comps[i]));
            i = i + 1;
        }
        Some(BooleanExpression::And(es))
    }
}

/// Builds the legacy-dialect filter from the unique-identifier components
/// collected for one field invocation.
#[verifier::loop_isolation(false)]
pub fn unique_identifier_filter_column(comps: &Vec<UniqueIdentifierComponent>) -> (res: Option<
    Expression,
>)
    ensures
        is_column_filter_for(res, comps@),
{
    if comps.len() == 0 {
        None
    } else if comps.len() == 1 {
        Some(column_comparison(&comps[0]))
    } else {
        let mut es: Vec<Expression> = Vec::new();
        let mut i: usize = 0;
        while i < comps.len()
            invariant
                i <= comps.len(),
                es@.len() == i,
                forall|j: int| 0 <= j < i ==> es@[j] == spec_column_comparison(#[trigger] comps@[j]),
            decreases comps.len() - i,
        {
            es.push(column_comparison(&comps[i]));
            i = i + 1;
        }
        Some(Expression::And(es))
    }
}

/// A row given as name/value pairs, as the evaluation specs see it: the
/// first pair bearing a name supplies that cell.
pub open spec fn row_map(s: Seq<(String, Value)>) -> Map<Seq<char>, Value>
    decreases s.len(),
{
    if s.len() == 0 {
        Map::empty()
    } else {
        row_map(s.drop_first()).insert(s.first().0@, s.first().1)
    }
}

/// First-match lookup of a row cell.
pub open spec fn spec_row_lookup(s: Seq<(String, Value)>, name: Seq<char>) -> Option<Value>
    decreases s.len(),
{
    if s.len() == 0 {
        None
    } else if s.first().0@ == name {
        Some(s.first().1)
    } else {
        spec_row_lookup(s.drop_first(), name)
    }
}

/// The row map holds exactly the cells first-match lookup finds.
proof fn lemma_row_map_lookup(s: Seq<(String, Value)>, name: Seq<char>)
    ensures
        row_map(s).contains_key(name) <==> spec_row_lookup(s, name) is Some,
        row_map(s).contains_key(name) ==> Some(row_map(s)[name]) == spec_row_lookup(s, name),
    decreases s.len(),
{
    if s.len() > 0 {
        lemma_row_map_lookup(s.drop_first(), name);
    }
}

/// Finds the first cell of the row bearing this name.
#[verifier::loop_isolation(false)]
fn row_lookup<'a>(row: &'a Vec<(String, Value)>, name: &String) -> (res: Option<&'a Value>)
    ensures
        match res {
            Some(v) => spec_row_lookup(row@, name@) == Some(*v),
            None => spec_row_lookup(row@, name@) is None,
        },
{
    let mut i: usize = 0;
    proof {
        assert(row@.skip(0) =~= row@);
    }
    while i < row.len()
        invariant
            i <= row.len(),
            spec_row_lookup(row@, name@) == spec_row_lookup(row@.skip(i as int), name@),
        decreases row.len() - i,
    {
        proof {
            assert(row@.skip(i as int).first() == row@[i as int]);
        }
        if row[i].0.eq(name) {
            return Some(&row[i].1);
        }
        i = i + 1;
        proof {
            assert(row@.skip(i as int - 1).drop_first() =~= row@.skip(i as int));
        }
    }
    proof {
        assert(row@.skip(row@.len() as int) =~= Seq::<(String, Value)>::empty());
    }
    None
}

/// Decides value equality as the evaluation specs define it.
fn value_eq_exec(a: &Value, b: &Value) -> (res: bool)
    ensures
        res == value_eq(*a, *b),
{
    match (a, b) {
        (Value::Null, Value::Null) => true,
        (Value::Bool(x), Value::Bool(y)) => *x == *y,
        (Value::Int(x), Value::Int(y)) => *x == *y,
        (Value::Str(x), Value::Str(y)) => x.eq(y),
        _ => false,
    }
}

/// Evaluates a structured predicate on a row given as field/value pairs.
#[verifier::loop_isolation(false)]
pub fn eval_structured_expression(e: &BooleanExpression, row: &Vec<(String, Value)>) -> (res: bool)
    ensures
        res == eval_structured(*e, row_map(row@)),
    decreases *e,
{
    match e {
        BooleanExpression::Comparison { field_name, operator, value } => {
            proof {
                lemma_row_map_lookup(row@, field_name@);
            }
            match row_lookup(row, field_name) {
                None => false,
                Some(cell) => match operator {
                    ComparisonOperator::Equals => value_eq_exec(cell, value),
                    ComparisonOperator::NotEquals => !value_eq_exec(cell, value),
                },
            }
        },
        BooleanExpression::And(es) => {
            let mut i: usize = 0;
            while i < es.len()
                invariant
                    i <= es.len(),
                    forall|j: int| 0 <= j < i ==> eval_structured(#[trigger] es@[j], row_map(row@)),
                decreases es.len() - i,
            {
                if !eval_structured_expression(&es[i], row) {
                    return false;
                }
                i = i + 1;
            }
            true
        },
    }
}

/// Evaluates a legacy predicate on a row given as column/value pairs.
#[verifier::loop_isolation(false)]
pub fn eval_column_expression(e: &Expression, row: &Vec<(String, Value)>) -> (res: bool)
    ensures
        res == eval_column(*e, row_map(row@)),
    decreases *e,
{
    match e {
        Expression::BinaryComparison { column, operator: _, value } => {
            proof {
                lemma_row_map_lookup(row@, column@);
            }
            match row_lookup(row, column) {
                None => false,
                Some(cell) => value_eq_exec(cell, value),
            }
        },
        Expression::And(es) => {
            let mut i: usize = 0;
            while i < es.len()
                invariant
                    i <= es.len(),
                    forall|j: int| 0 <= j < i ==> eval_column(#[trigger] es@[j], row_map(row@)),
                decreases es.len() - i,
            {
                if !eval_column_expression(&es[i], row) {
                    return false;
                }
                i = i + 1;
            }
            true
        },
    }
}

/// Two values each equal to a third agree on every comparison.
proof fn lemma_value_eq_congruent(a: Value, b: Value, v: Value)
    requires
        value_eq(a, b),
    ensures
        value_eq(a, v) == value_eq(b, v),
{
}

/// Filter equivalence across pipelines: for any unique-identifier
/// components, the structured filter and the column filter accept or reject
/// a row identically, whenever the row shows the same cells under logical
/// field names as it does under the mapped connector columns.
pub proof fn lemma_filter_equivalence(
    comps: Seq<UniqueIdentifierComponent>,
    sf: Option<BooleanExpression>,
    cf: Option<Expression>,
    field_row: Map<Seq<char>, Value>,
    column_row: Map<Seq<char>, Value>,
)
    requires
        is_structured_filter_for(sf, comps),
        is_column_filter_for(cf, comps),
        forall|i: int|
            0 <= i < comps.len() ==> (field_row.contains_key(#[trigger] comps[i].field_name@)
                <==> column_row.contains_key(comps[i].ndc_column.column@)),
        forall|i: int|
            0 <= i < comps.len() ==> (field_row.contains_key(#[trigger] comps[i].field_name@)
                ==> value_eq(field_row[comps[i].field_name@], column_row[comps[i].ndc_column.column@])),
    ensures
        eval_structured_opt(sf, field_row) == eval_column_opt(cf, column_row),
{
    if comps.len() == 0 {
    } else if comps.len() == 1 {
        lemma_component_comparison_equivalence(comps[0], field_row, column_row);
    } else {
        let es = sf->Some_0->And_0;
        let cs = cf->Some_0->And_0;
        assert forall|i: int| 0 <= i < comps.len() implies (eval_structured(
            #[trigger] es@[i],
            field_row,
        ) == eval_column(cs@[i], column_row)) by {
            lemma_component_comparison_equivalence(comps[i], field_row, column_row);
        }
        if eval_structured_opt(sf, field_row) {
            assert forall|i: int| 0 <= i < cs@.len() implies eval_column(
                #[trigger] cs@[i],
                column_row,
            ) by {
                assert(eval_structured(es@[i], field_row));
            }
        }
        if eval_column_opt(cf, column_row) {
            assert forall|i: int| 0 <= i < es@.len() implies eval_structured(
                #[trigger] es@[i],
                field_row,
            ) by {
                assert(eval_column(cs@[i], column_row));
            }
        }
    }
}

/// One component's two comparisons decide alike on agreeing rows.
proof fn lemma_component_comparison_equivalence(
    c: UniqueIdentifierComponent,
    field_row: Map<Seq<char>, Value>,
    column_row: Map<Seq<char>, Value>,
)
    requires
        field_row.contains_key(c.field_name@) <==> column_row.contains_key(c.ndc_column.column@),
        field_row.contains_key(c.field_name@) ==> value_eq(
            field_row[c.field_name@],
            column_row[c.ndc_column.column@],
        ),
    ensures
        eval_structured(spec_structured_comparison(c), field_row) == eval_column(
            spec_column_comparison(c),
            column_row,
        ),
{
    if field_row.contains_key(c.field_name@) {
        lemma_value_eq_congruent(field_row[c.field_name@], column_row[c.ndc_column.column@], c.value);
    }
}

} // verus!
