//! Lists of expressions as they stand in a statement: separated values and
//! the `where` clause.

use super::Value;
use crate::text::{joined, lemma_joined_push};
use vstd::prelude::*;

verus! {

/// The text of each expression, in order.
pub open spec fn values_sql(values: Seq<Value>) -> Seq<Seq<char>> {
    Seq::new(values.len(), |i: int| values[i].sql())
}

/// The `where` clause of a statement: nothing without a condition, else
/// ` where ` and the conditions joined by ` and `.
pub open spec fn where_sql(clauses: Seq<Seq<char>>) -> Seq<char> {
    if clauses.len() == 0 {
        Seq::empty()
    } else {
        " where "@ + joined(clauses, " and "@)
    }
}

/// ` as ` and the quoted alias, or nothing where there is no alias.
pub open spec fn alias_sql(alias: Option<Seq<char>>) -> Seq<char> {
    match alias {
        Some(name) => " as "@ + crate::text::quoted(name),
        None => Seq::empty(),
    }
}

/// The view of an optional text.
pub open spec fn option_text(text: Option<String>) -> Option<Seq<char>> {
    match text {
        Some(t) => Some(t@),
        None => None,
    }
}

/// The text of an optional expression.
pub open spec fn option_sql(value: Option<Value>) -> Option<Seq<char>> {
    match value {
        Some(v) => Some(v.sql()),
        None => None,
    }
}

/// Adding an expression to a list adds its text to the texts.
pub proof fn lemma_values_push(values: Seq<Value>, value: Value)
    ensures
        values_sql(values.push(value)) == values_sql(values).push(value.sql()),
{
    assert(values_sql(values.push(value)) =~= values_sql(values).push(value.sql()));
}

/// Appends the expressions to `buffer` with `separator` between them.
pub fn generate_joined(values: &Vec<Value>, separator: &str, buffer: &mut String)
    ensures
        final(buffer)@ == old(buffer)@ + joined(values_sql(values@), separator@),
{
    let ghost texts = values_sql(values@);
    let mut i: usize = 0;
    while i < values.len()
        invariant
            i <= values.len(),
            texts == values_sql(values@),
            buffer@ == old(buffer)@ + joined(texts.take(i as int), separator@),
        decreases values.len() - i,
    {
        if i > 0 {
            buffer.append(separator);
        }
        values[i].generate(buffer);
        proof {
            lemma_joined_push(texts.take(i as int), texts[i as int], separator@);
            assert(texts.take(i as int).push(texts[i as int]) =~= texts.take(i + 1));
        }
        i = i + 1;
    }
    assert(texts.take(values.len() as int) =~= texts);
}

/// Appends the `where` clause made of `clauses` to `buffer`.
pub fn generate_where(clauses: &Vec<Value>, buffer: &mut String)
    ensures
        final(buffer)@ == old(buffer)@ + where_sql(values_sql(clauses@)),
{
    if clauses.len() > 0 {
        buffer.append(" where ");
        generate_joined(clauses, " and ", buffer);
    }
}

/// Appends ` as ` and the quoted alias to `buffer` where there is an alias.
pub fn generate_alias(alias: &Option<String>, buffer: &mut String)
    ensures
        final(buffer)@ == old(buffer)@ + alias_sql(option_text(*alias)),
{
    if let Some(name) = alias {
        buffer.append(" as ");
        crate::text::push_quoted(buffer, name.as_str());
    }
}

} // verus!
