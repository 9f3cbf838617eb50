//! The `update` statement.

use super::clauses::{generate_where, lemma_values_push, values_sql, where_sql};
use super::{Column, IntoQuery, IntoValue, Query, Value};
use crate::text::{joined, lemma_joined_push, push_quoted, quoted, quoted_name};
use vstd::prelude::*;

verus! {

/// What an `update` builder holds: the table, the text of each assignment and
/// the text of each condition.
pub struct UpdateView {
    pub table: Seq<char>,
    pub set_clauses: Seq<Seq<char>>,
    pub where_clauses: Seq<Seq<char>>,
}

/// The text of one assignment: the quoted column, `=`, the expression.
pub open spec fn assignment_sql(column: Seq<char>, value: Seq<char>) -> Seq<char> {
    quoted_name(column) + "="@ + value
}

/// The text of each assignment, in order.
pub open spec fn assignments_sql(sets: Seq<(String, Value)>) -> Seq<Seq<char>> {
    Seq::new(sets.len(), |i: int| assignment_sql(sets[i].0@, sets[i].1.sql()))
}

/// The text of an `update` statement.
pub open spec fn update_sql(v: UpdateView) -> Seq<char> {
    "update "@ + quoted(v.table) + " set "@ + joined(v.set_clauses, ","@) + where_sql(
        v.where_clauses,
    )
}

/// Builder of an `update` statement.
pub struct Update {
    table: String,
    set_clauses: Vec<(String, Value)>,
    where_clauses: Vec<Value>,
}

impl View for Update {
    type V = UpdateView;

    closed spec fn view(&self) -> UpdateView {
        UpdateView {
            table: self.table@,
            set_clauses: assignments_sql(self.set_clauses@),
            where_clauses: values_sql(self.where_clauses@),
        }
    }
}

impl Update {
    pub fn table(table: &str) -> (builder: Self)
        ensures
            builder@ == (UpdateView {
                table: table@,
                set_clauses: Seq::empty(),
                where_clauses: Seq::empty(),
            }),
    {
        let builder = Self {
            table: table.to_owned(),
            set_clauses: Vec::new(),
            where_clauses: Vec::new(),
        };
        assert(builder@.set_clauses =~= Seq::empty());
        assert(builder@.where_clauses =~= Seq::empty());
        builder
    }

    /// Adds an assignment; the assignments are separated by commas.
    pub fn set(self, column: &str, value: impl IntoValue) -> (builder: Self)
        ensures
            builder@ == (UpdateView {
                set_clauses: self@.set_clauses.push(assignment_sql(column@, value.value_sql())),
                ..self@
            }),
    {
        let mut builder = self;
        let pair = (column.to_owned(), value.into_value());
        assert(assignments_sql(builder.set_clauses@.push(pair)) =~= assignments_sql(
            builder.set_clauses@,
        ).push(assignment_sql(pair.0@, pair.1.sql())));
        builder.set_clauses.push(pair);
        builder
    }

    /// Adds a condition; the conditions are joined by ` and `.
    pub fn condition(self, value: impl IntoValue) -> (builder: Self)
        ensures
            builder@ == (UpdateView {
                where_clauses: self@.where_clauses.push(value.value_sql()),
                ..self@
            }),
    {
        let mut builder = self;
        let clause = value.into_value();
        proof {
            lemma_values_push(builder.where_clauses@, clause);
        }
        builder.where_clauses.push(clause);
        builder
    }

    /// Appends the statement text to `buffer`.
    pub fn generate(&self, buffer: &mut String)
        ensures
            final(buffer)@ == old(buffer)@ + update_sql(self@),
    {
        buffer.append("update ");
        push_quoted(buffer, self.table.as_str());
        buffer.append(" set ");
        let ghost start = buffer@;
        let ghost texts = assignments_sql(self.set_clauses@);
        let mut i: usize = 0;
        while i < self.set_clauses.len()
            invariant
                i <= self.set_clauses.len(),
                texts == assignments_sql(self.set_clauses@),
                buffer@ == start + joined(texts.take(i as int), ","@),
            decreases self.set_clauses.len() - i,
        {
            if i > 0 {
                buffer.append(",");
            }
            let pair = &self.set_clauses[i];
            Column::generate_name(buffer, pair.0.as_str());
            buffer.append("=");
            pair.1.generate(buffer);
            proof {
                lemma_joined_push(texts.take(i as int), texts[i as int], ","@);
                assert(texts.take(i as int).push(texts[i as int]) =~= texts.take(i + 1));
            }
            i = i + 1;
        }
        assert(texts.take(self.set_clauses.len() as int) =~= texts);
        generate_where(&self.where_clauses, buffer);
    }
}

impl IntoQuery for Update {
    open spec fn query_sql(&self) -> Seq<char> {
        update_sql(self@)
    }

    fn into_query(self) -> (query: Query) {
        let mut buffer = String::new();
        self.generate(&mut buffer);
        Query::from_text(buffer)
    }
}

} // verus!
