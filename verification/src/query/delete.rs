//! The `delete` statement.

use super::clauses::{generate_where, lemma_values_push, values_sql, where_sql};
use super::{IntoQuery, IntoValue, Query, Value};
use crate::text::{push_quoted, quoted};
use vstd::prelude::*;

verus! {

/// What a `delete` builder holds: the table, and the text of each condition.
pub struct DeleteView {
    pub from: Seq<char>,
    pub where_clauses: Seq<Seq<char>>,
}

/// The text of a `delete` statement.
pub open spec fn delete_sql(v: DeleteView) -> Seq<char> {
    "delete from "@ + quoted(v.from) + where_sql(v.where_clauses)
}

/// Builder of a `delete` statement.
pub struct Delete {
    from: String,
    where_clauses: Vec<Value>,
}

impl View for Delete {
    type V = DeleteView;

    closed spec fn view(&self) -> DeleteView {
        DeleteView { from: self.from@, where_clauses: values_sql(self.where_clauses@) }
    }
}

impl Delete {
    pub fn from(table: &str) -> (builder: Self)
        ensures
            builder@ == (DeleteView { from: table@, where_clauses: Seq::empty() }),
    {
        let builder = Self { from: table.to_owned(), where_clauses: Vec::new() };
        assert(builder@.where_clauses =~= Seq::empty());
        builder
    }

    /// Adds a condition; the conditions are joined by ` and `.
    pub fn condition(self, value: impl IntoValue) -> (builder: Self)
        ensures
            builder@ == (DeleteView {
                where_clauses: self@.where_clauses.push(value.value_sql()),
                ..self@
            }),
    {
        let mut builder = self;
        let clause = value.into_value();
        proof {
            lemma_values_push(builder.where_clauses@, clause);
        }
        builder.where_clauses.push(clause);
        builder
    }

    /// Appends the statement text to `buffer`.
    pub fn generate(&self, buffer: &mut String)
        ensures
            final(buffer)@ == old(buffer)@ + delete_sql(self@),
    {
        buffer.append("delete from ");
        push_quoted(buffer, self.from.as_str());
        generate_where(&self.where_clauses, buffer);
    }
}

impl IntoQuery for Delete {
    open spec fn query_sql(&self) -> Seq<char> {
        delete_sql(self@)
    }

    fn into_query(self) -> (query: Query) {
        let mut buffer = String::new();
        self.generate(&mut buffer);
        Query::from_text(buffer)
    }
}

} // verus!
