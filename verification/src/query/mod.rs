//! The statement builder: expression trees, clause lists, and the generated
//! statement text.

pub mod clauses;
pub mod columns;
pub mod delete;
pub mod insert;
pub mod join;
pub mod nesting;
pub mod select;
pub mod update;
pub mod value;

pub use columns::{Column, Columns, IntoColumns};
pub use delete::{Delete, DeleteView};
pub use insert::{Insert, InsertView};
pub use join::{Join, JoinKind, JoinView};
pub use select::{OrderBy, Select, SelectBeforeFrom, SelectView};
pub use update::{Update, UpdateView};
pub use value::{IntoValue, Value};

use crate::text::{int_decimal, quoted_name};
use value::{bare_sql, call_sql, wrapped_sql};
use vstd::prelude::*;

verus! {

/// A generated statement. Its text is fixed when it is made.
#[derive(Debug)]
pub struct Query {
    pub(crate) query: String,
}

impl View for Query {
    type V = Seq<char>;

    closed spec fn view(&self) -> Seq<char> {
        self.query@
    }
}

impl Query {
    /// A statement with the given text.
    pub(crate) fn from_text(text: String) -> (query: Self)
        ensures
            query@ == text@,
    {
        Query { query: text }
    }

    /// Appends the statement text to `buffer`, as it stands.
    pub fn generate(&self, buffer: &mut String)
        ensures
            final(buffer)@ == old(buffer)@ + self@,
    {
        buffer.append(self.query.as_str());
    }

    /// Starts a `select` from its result columns.
    pub fn select(columns: impl IntoColumns) -> (before: SelectBeforeFrom)
        ensures
            before@ == columns.column_texts(),
    {
        Select::columns(columns)
    }

    /// Starts a `select` on `table` with no column yet.
    pub fn select_from(table: &str) -> (select: Select)
        ensures
            select@ == select::plain_select(Seq::empty(), table@, None),
    {
        Select::from(table)
    }

    /// Starts a `delete` on `table`.
    pub fn delete_from(table: &str) -> (builder: Delete)
        ensures
            builder@ == (DeleteView { from: table@, where_clauses: Seq::empty() }),
    {
        Delete::from(table)
    }

    /// Starts an `update` of `table`.
    pub fn update(table: &str) -> (builder: Update)
        ensures
            builder@ == (UpdateView {
                table: table@,
                set_clauses: Seq::empty(),
                where_clauses: Seq::empty(),
            }),
    {
        Update::table(table)
    }

    /// Starts an `insert` into `table`.
    pub fn insert_into(table: &str) -> (builder: Insert)
        ensures
            builder@ == (InsertView {
                table: table@,
                columns: Seq::empty(),
                values: Seq::empty(),
                select: None,
                ignore: false,
            }),
    {
        Insert::table(table)
    }

    /// The statement text.
    pub fn as_string(&self) -> (text: String)
        ensures
            text@ == self@,
    {
        self.query.clone()
    }
}

impl Clone for Query {
    fn clone(&self) -> (copy: Self)
        ensures
            copy == *self,
    {
        Query { query: self.query.clone() }
    }
}

/// A builder that ends in a generated statement. The conversion consumes the
/// builder, so one builder yields one statement.
pub trait IntoQuery: Sized {
    /// The text of the statement that `self` generates.
    spec fn query_sql(&self) -> Seq<char>;

    fn into_query(self) -> (query: Query)
        ensures
            query@ == self.query_sql(),
    ;
}

/// What a run of the generator on `tree` appended to a buffer that held
/// `before` and holds `after`.
pub open spec fn appended(before: Seq<char>, after: Seq<char>) -> Seq<char> {
    after.subrange(before.len() as int, after.len() as int)
}

/// Generation is deterministic: whatever the buffers held before, two runs
/// of the generator on one tree append the same characters, and so the same
/// bytes.
pub proof fn lemma_generation_is_deterministic(
    tree: Value,
    first_before: Seq<char>,
    first_after: Seq<char>,
    second_before: Seq<char>,
    second_after: Seq<char>,
)
    requires
        first_after == first_before + tree.sql(),
        second_after == second_before + tree.sql(),
    ensures
        appended(first_before, first_after) == appended(second_before, second_after),
        vstd::utf8::encode_utf8(appended(first_before, first_after)) == vstd::utf8::encode_utf8(
            appended(second_before, second_after),
        ),
{
    assert(appended(first_before, first_after) =~= tree.sql());
    assert(appended(second_before, second_after) =~= tree.sql());
}

/// `coalesce(a,b)`.
pub fn coalesce(a: impl IntoValue, b: impl IntoValue) -> (result: Value)
    ensures
        result.sql() == call_sql("coalesce"@, a.value_sql() + seq![','] + b.value_sql()),
        result matches Value::Coalesce(left, right) && a.becomes(*left) && b.becomes(*right),
{
    Value::Coalesce(Box::new(a.into_value()), Box::new(b.into_value()))
}

/// `count(value)`.
pub fn count(value: impl IntoValue) -> (result: Value)
    ensures
        result.sql() == call_sql("count"@, value.value_sql()),
        result matches Value::Count(inner) && value.becomes(*inner),
{
    Value::Count(Box::new(value.into_value()))
}

/// `sum(value)`.
pub fn sum(value: impl IntoValue) -> (result: Value)
    ensures
        result.sql() == call_sql("sum"@, value.value_sql()),
        result matches Value::Sum(inner) && value.becomes(*inner),
{
    Value::Sum(Box::new(value.into_value()))
}

/// `max(value)`.
pub fn max(value: impl IntoValue) -> (result: Value)
    ensures
        result.sql() == call_sql("max"@, value.value_sql()),
        result matches Value::Max(inner) && value.becomes(*inner),
{
    Value::Max(Box::new(value.into_value()))
}

/// `avg(value)`.
pub fn avg(value: impl IntoValue) -> (result: Value)
    ensures
        result.sql() == call_sql("avg"@, value.value_sql()),
        result matches Value::Avg(inner) && value.becomes(*inner),
{
    Value::Avg(Box::new(value.into_value()))
}

/// The column `name`; a dotted name is quoted part by part.
pub fn column(name: &str) -> (result: Column)
    ensures
        result.sql() == quoted_name(name@),
        result matches Column::Name(held) && held@ == name@,
{
    Column::Name(name.to_owned())
}

/// The placeholder `?N` for the parameter at position `value`, counted from 1.
/// The builder keeps the position only: the caller binds the values in the
/// same order when the statement runs.
pub fn param(value: i64) -> (result: Value)
    ensures
        result.sql() == seq!['?'] + int_decimal(value as int),
        result == Value::Param(value),
{
    Value::Param(value)
}

/// The expression `value` as a result column under the alias `name`.
pub fn alias(value: impl IntoValue, name: &str) -> (result: Column)
    ensures
        result.sql() == value.value_sql() + " as "@ + quoted_name(name@),
        result matches Column::ValueAlias(held, inner) && held@ == name@ && value.becomes(*inner),
{
    Column::ValueAlias(name.to_owned(), Box::new(value.into_value()))
}

/// `value is null`.
pub fn is_null(value: impl IntoValue) -> (result: Value)
    ensures
        result.sql() == value.value_sql() + " is null"@,
        result matches Value::IsNull(inner) && value.becomes(*inner),
{
    Value::IsNull(Box::new(value.into_value()))
}

/// `value is not null`.
pub fn is_not_null(value: impl IntoValue) -> (result: Value)
    ensures
        result.sql() == value.value_sql() + " is not null"@,
        result matches Value::IsNotNull(inner) && value.becomes(*inner),
{
    Value::IsNotNull(Box::new(value.into_value()))
}

/// The current date and time, `datetime('now')`.
pub fn now() -> (result: Value)
    ensures
        result.sql() == "datetime('now')"@,
        result == Value::Now,
{
    Value::Now
}

/// 1 where the condition holds and 0 where it does not.
pub fn bool_to_integer(value: impl IntoValue) -> (result: Value)
    ensures
        result.sql() == "(case when "@ + value.value_sql() + " then 1 else 0 end)"@,
        result matches Value::BoolToInteger(inner) && value.becomes(*inner),
{
    Value::BoolToInteger(Box::new(value.into_value()))
}

/// `a=b`. A comparison adds no parentheses of its own.
pub fn eq(a: impl IntoValue, b: impl IntoValue) -> (result: Value)
    ensures
        result.sql() == bare_sql(a.value_sql(), "="@, b.value_sql()),
        result matches Value::Eq(left, right) && a.becomes(*left) && b.becomes(*right),
{
    Value::Eq(Box::new(a.into_value()), Box::new(b.into_value()))
}

/// `a not in b`.
pub fn not_in(a: impl IntoValue, b: impl IntoValue) -> (result: Value)
    ensures
        result.sql() == bare_sql(a.value_sql(), " not in "@, b.value_sql()),
        result matches Value::NotIn(left, right) && a.becomes(*left) && b.becomes(*right),
{
    Value::NotIn(Box::new(a.into_value()), Box::new(b.into_value()))
}

/// `a in b`.
pub fn is_in(a: impl IntoValue, b: impl IntoValue) -> (result: Value)
    ensures
        result.sql() == bare_sql(a.value_sql(), " in "@, b.value_sql()),
        result matches Value::In(left, right) && a.becomes(*left) && b.becomes(*right),
{
    Value::In(Box::new(a.into_value()), Box::new(b.into_value()))
}

/// The tree of `x` between `y` and `z`: `x>=y` and `x<z`, so that the
/// lower bound belongs to the range and the upper bound does not.
pub open spec fn between_of(x: Value, y: Value, z: Value) -> Value {
    Value::And(
        Box::new(Value::Ge(Box::new(x), Box::new(y))),
        Box::new(Value::Lt(Box::new(x), Box::new(z))),
    )
}

/// The tree of three conditions that all hold: `x` and the pair of `y` and
/// `z`, nested to the right.
pub open spec fn and3_of(x: Value, y: Value, z: Value) -> Value {
    Value::And(Box::new(x), Box::new(Value::And(Box::new(y), Box::new(z))))
}

/// `(a>=b and a<c)`: the lower bound belongs to the range, the upper bound does not.
pub fn between(a: impl IntoValue, b: impl IntoValue, c: impl IntoValue) -> (result: Value)
    ensures
        result.sql() == wrapped_sql(
            bare_sql(a.value_sql(), ">="@, b.value_sql()),
            " and "@,
            bare_sql(a.value_sql(), "<"@, c.value_sql()),
        ),
        exists|x: Value, y: Value, z: Value|
            a.becomes(x) && b.becomes(y) && c.becomes(z) && result == #[trigger] between_of(
                x,
                y,
                z,
            ),
{
    let x = a.into_value();
    let again = x.clone();
    let y = b.into_value();
    let z = c.into_value();
    let lower = Value::Ge(Box::new(x), Box::new(y));
    let upper = Value::Lt(Box::new(again), Box::new(z));
    assert(lower.sql() == bare_sql(x.sql(), ">="@, y.sql()));
    assert(upper.sql() == bare_sql(x.sql(), "<"@, z.sql()));
    let result = Value::And(Box::new(lower), Box::new(upper));
    assert(result == between_of(x, y, z));
    result
}

/// `a<>b`.
pub fn ne(a: impl IntoValue, b: impl IntoValue) -> (result: Value)
    ensures
        result.sql() == bare_sql(a.value_sql(), "<>"@, b.value_sql()),
        result matches Value::Ne(left, right) && a.becomes(*left) && b.becomes(*right),
{
    Value::Ne(Box::new(a.into_value()), Box::new(b.into_value()))
}

/// `a>=b`.
pub fn ge(a: impl IntoValue, b: impl IntoValue) -> (result: Value)
    ensures
        result.sql() == bare_sql(a.value_sql(), ">="@, b.value_sql()),
        result matches Value::Ge(left, right) && a.becomes(*left) && b.becomes(*right),
{
    Value::Ge(Box::new(a.into_value()), Box::new(b.into_value()))
}

/// `a>b`.
pub fn gt(a: impl IntoValue, b: impl IntoValue) -> (result: Value)
    ensures
        result.sql() == bare_sql(a.value_sql(), ">"@, b.value_sql()),
        result matches Value::Gt(left, right) && a.becomes(*left) && b.becomes(*right),
{
    Value::Gt(Box::new(a.into_value()), Box::new(b.into_value()))
}

/// `a<=b`.
pub fn le(a: impl IntoValue, b: impl IntoValue) -> (result: Value)
    ensures
        result.sql() == bare_sql(a.value_sql(), "<="@, b.value_sql()),
        result matches Value::Le(left, right) && a.becomes(*left) && b.becomes(*right),
{
    Value::Le(Box::new(a.into_value()), Box::new(b.into_value()))
}

/// `a<b`.
pub fn lt(a: impl IntoValue, b: impl IntoValue) -> (result: Value)
    ensures
        result.sql() == bare_sql(a.value_sql(), "<"@, b.value_sql()),
        result matches Value::Lt(left, right) && a.becomes(*left) && b.becomes(*right),
{
    Value::Lt(Box::new(a.into_value()), Box::new(b.into_value()))
}

/// `(a and b)`.
pub fn and(a: impl IntoValue, b: impl IntoValue) -> (result: Value)
    ensures
        result.sql() == wrapped_sql(a.value_sql(), " and "@, b.value_sql()),
        result matches Value::And(left, right) && a.becomes(*left) && b.becomes(*right),
{
    Value::And(Box::new(a.into_value()), Box::new(b.into_value()))
}

/// `(a and (b and c))`.
pub fn and3(a: impl IntoValue, b: impl IntoValue, c: impl IntoValue) -> (result: Value)
    ensures
        result.sql() == wrapped_sql(
            a.value_sql(),
            " and "@,
            wrapped_sql(b.value_sql(), " and "@, c.value_sql()),
        ),
        exists|x: Value, y: Value, z: Value|
            a.becomes(x) && b.becomes(y) && c.becomes(z) && result == #[trigger] and3_of(x, y, z),
{
    let x = a.into_value();
    let y = b.into_value();
    let z = c.into_value();
    let inner = Value::And(Box::new(y), Box::new(z));
    assert(inner.sql() == wrapped_sql(y.sql(), " and "@, z.sql()));
    let result = Value::And(Box::new(x), Box::new(inner));
    assert(result == and3_of(x, y, z));
    result
}

/// `(a or b)`.
pub fn or(a: impl IntoValue, b: impl IntoValue) -> (result: Value)
    ensures
        result.sql() == wrapped_sql(a.value_sql(), " or "@, b.value_sql()),
        result matches Value::Or(left, right) && a.becomes(*left) && b.becomes(*right),
{
    Value::Or(Box::new(a.into_value()), Box::new(b.into_value()))
}

/// `(a+b)`.
pub fn add(a: impl IntoValue, b: impl IntoValue) -> (result: Value)
    ensures
        result.sql() == wrapped_sql(a.value_sql(), "+"@, b.value_sql()),
        result matches Value::Add(left, right) && a.becomes(*left) && b.becomes(*right),
{
    Value::Add(Box::new(a.into_value()), Box::new(b.into_value()))
}

} // verus!
