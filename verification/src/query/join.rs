//! The `join` clause of a `select`.

use super::clauses::{alias_sql, generate_alias, generate_joined, lemma_values_push, option_text, values_sql};
use super::{Column, IntoValue, Value};
use crate::text::{joined, push_quoted, quoted, quoted_name};
use vstd::prelude::*;

verus! {

/// Which rows of the left side a join keeps.
#[derive(Clone, Copy, Debug, PartialEq, Eq, Structural)]
pub enum JoinKind {
    Left,
    Inner,
}

/// What a `join` builder holds: the kind, the table, the alias if any, and the
/// text of each `on` condition.
pub struct JoinView {
    pub kind: JoinKind,
    pub table: Seq<char>,
    pub alias: Option<Seq<char>>,
    pub on: Seq<Seq<char>>,
}

/// The text of a `join` clause; the `on` conditions are joined by ` and `.
pub open spec fn join_sql(v: JoinView) -> Seq<char> {
    (match v.kind {
        JoinKind::Left => "left join "@,
        JoinKind::Inner => "inner join "@,
    }) + quoted(v.table) + alias_sql(v.alias) + " on "@ + joined(v.on, " and "@)
}

/// Builder of a `join` clause.
pub struct Join {
    kind: JoinKind,
    table: String,
    alias: Option<String>,
    on: Vec<Value>,
}

impl View for Join {
    type V = JoinView;

    closed spec fn view(&self) -> JoinView {
        JoinView {
            kind: self.kind,
            table: self.table@,
            alias: option_text(self.alias),
            on: values_sql(self.on@),
        }
    }
}

impl Join {
    pub fn left(table: &str) -> (join: Self)
        ensures
            join@ == (JoinView {
                kind: JoinKind::Left,
                table: table@,
                alias: None,
                on: Seq::empty(),
            }),
    {
        let join = Self { kind: JoinKind::Left, table: table.to_owned(), alias: None, on: Vec::new() };
        assert(join@.on =~= Seq::empty());
        join
    }

    pub fn left_as(table: &str, alias: &str) -> (join: Self)
        ensures
            join@ == (JoinView {
                kind: JoinKind::Left,
                table: table@,
                alias: Some(alias@),
                on: Seq::empty(),
            }),
    {
        Self::left(table).alias(alias)
    }

    pub fn inner(table: &str) -> (join: Self)
        ensures
            join@ == (JoinView {
                kind: JoinKind::Inner,
                table: table@,
                alias: None,
                on: Seq::empty(),
            }),
    {
        let join = Self {
            kind: JoinKind::Inner,
            table: table.to_owned(),
            alias: None,
            on: Vec::new(),
        };
        assert(join@.on =~= Seq::empty());
        join
    }

    pub fn inner_as(table: &str, alias: &str) -> (join: Self)
        ensures
            join@ == (JoinView {
                kind: JoinKind::Inner,
                table: table@,
                alias: Some(alias@),
                on: Seq::empty(),
            }),
    {
        Self::inner(table).alias(alias)
    }

    /// Sets the alias of the joined table.
    pub fn alias(self, alias: &str) -> (join: Self)
        ensures
            join@ == (JoinView { alias: Some(alias@), ..self@ }),
    {
        let mut join = self;
        join.alias = Some(alias.to_owned());
        join
    }

    /// Adds an `on` condition.
    pub fn on(self, value: impl IntoValue) -> (join: Self)
        ensures
            join@ == (JoinView { on: self@.on.push(value.value_sql()), ..self@ }),
    {
        let mut join = self;
        let clause = value.into_value();
        proof {
            lemma_values_push(join.on@, clause);
        }
        join.on.push(clause);
        join
    }

    /// Adds the condition that `column` equals `value`.
    pub fn on_column(self, column: &str, value: impl IntoValue) -> (join: Self)
        ensures
            join@ == (JoinView {
                on: self@.on.push(quoted_name(column@) + "="@ + value.value_sql()),
                ..self@
            }),
    {
        let mut join = self;
        let column = Column::Name(column.to_owned());
        let value = value.into_value();
        let clause = Value::Eq(Box::new(column.into_value()), Box::new(value));
        proof {
            lemma_values_push(join.on@, clause);
        }
        join.on.push(clause);
        join
    }

    /// Adds the condition that `column` equals the column `other`.
    pub fn on_match(self, column: &str, other: &str) -> (join: Self)
        ensures
            join@ == (JoinView {
                on: self@.on.push(quoted_name(column@) + "="@ + quoted_name(other@)),
                ..self@
            }),
    {
        let mut join = self;
        let column = Column::Name(column.to_owned());
        let other = Column::Name(other.to_owned());
        let clause = Value::Eq(Box::new(column.into_value()), Box::new(other.into_value()));
        proof {
            lemma_values_push(join.on@, clause);
        }
        join.on.push(clause);
        join
    }

    /// Appends the text of the clause to `buffer`.
    pub fn generate(&self, buffer: &mut String)
        ensures
            final(buffer)@ == old(buffer)@ + join_sql(self@),
    {
        match self.kind {
            JoinKind::Left => buffer.append("left join "),
            JoinKind::Inner => buffer.append("inner join "),
        }
        push_quoted(buffer, self.table.as_str());
        generate_alias(&self.alias, buffer);
        buffer.append(" on ");
        generate_joined(&self.on, " and ", buffer);
    }
}

} // verus!
