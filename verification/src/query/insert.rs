//! The `insert` statement.

use super::clauses::{generate_joined, lemma_values_push, values_sql};
use super::{Column, IntoQuery, IntoValue, Query, Value};
use crate::text::{joined, lemma_joined_push, push_quoted, quoted, quoted_name};
use vstd::prelude::*;

verus! {

/// What an `insert` builder holds: the table, the column names, the text of
/// each value, the text of the nested `select` if there is one, and whether
/// rows that break a constraint are skipped.
pub struct InsertView {
    pub table: Seq<char>,
    pub columns: Seq<Seq<char>>,
    pub values: Seq<Seq<char>>,
    pub select: Option<Seq<char>>,
    pub ignore: bool,
}

/// The views of the names, in order.
pub open spec fn names_of(names: Seq<String>) -> Seq<Seq<char>> {
    Seq::new(names.len(), |i: int| names[i]@)
}

/// Each name as a quoted identifier, in order.
pub open spec fn quoted_names(names: Seq<Seq<char>>) -> Seq<Seq<char>> {
    Seq::new(names.len(), |i: int| quoted_name(names[i]))
}

/// The column list of an `insert`: nothing without a column, else the quoted
/// names between ` (` and `) `.
pub open spec fn insert_columns_sql(columns: Seq<Seq<char>>) -> Seq<char> {
    if columns.len() == 0 {
        Seq::empty()
    } else {
        " ("@ + joined(quoted_names(columns), ","@) + ") "@
    }
}

/// The source of the rows: the nested `select` where there is one, whatever
/// values were given; else the values, if any.
pub open spec fn insert_source_sql(values: Seq<Seq<char>>, select: Option<Seq<char>>) -> Seq<
    char,
> {
    match select {
        Some(text) => text,
        None => if values.len() == 0 {
            Seq::empty()
        } else {
            "values ("@ + joined(values, ","@) + ")"@
        },
    }
}

/// The text of an `insert` statement.
pub open spec fn insert_sql(v: InsertView) -> Seq<char> {
    "insert "@ + (if v.ignore {
        "or ignore "@
    } else {
        Seq::empty()
    }) + "into "@ + quoted(v.table) + insert_columns_sql(v.columns) + insert_source_sql(
        v.values,
        v.select,
    )
}

/// Builder of an `insert` statement.
pub struct Insert {
    table: String,
    columns: Vec<String>,
    values: Vec<Value>,
    select: Option<Query>,
    ignore: bool,
}

impl View for Insert {
    type V = InsertView;

    closed spec fn view(&self) -> InsertView {
        InsertView {
            table: self.table@,
            columns: names_of(self.columns@),
            values: values_sql(self.values@),
            select: match self.select {
                Some(query) => Some(query@),
                None => None,
            },
            ignore: self.ignore,
        }
    }
}

impl Insert {
    pub fn table(table: &str) -> (builder: Self)
        ensures
            builder@ == (InsertView {
                table: table@,
                columns: Seq::empty(),
                values: Seq::empty(),
                select: None,
                ignore: false,
            }),
    {
        let builder = Self {
            table: table.to_owned(),
            columns: Vec::new(),
            values: Vec::new(),
            select: None,
            ignore: false,
        };
        assert(builder@.columns =~= Seq::empty());
        assert(builder@.values =~= Seq::empty());
        builder
    }

    /// Makes the statement skip rows that break a constraint.
    pub fn or_ignore(self) -> (builder: Self)
        ensures
            builder@ == (InsertView { ignore: true, ..self@ }),
    {
        let mut builder = self;
        builder.ignore = true;
        builder
    }

    /// Adds a column and the value for it.
    pub fn column(self, column: &str, value: impl IntoValue) -> (builder: Self)
        ensures
            builder@ == (InsertView {
                columns: self@.columns.push(column@),
                values: self@.values.push(value.value_sql()),
                ..self@
            }),
    {
        let mut builder = self;
        let name = column.to_owned();
        let expression = value.into_value();
        proof {
            lemma_values_push(builder.values@, expression);
            assert(names_of(builder.columns@.push(name)) =~= names_of(builder.columns@).push(
                name@,
            ));
        }
        builder.columns.push(name);
        builder.values.push(expression);
        builder
    }

    /// Adds a column without a value, for rows that come from a nested `select`.
    pub fn column_name(self, column: &str) -> (builder: Self)
        ensures
            builder@ == (InsertView { columns: self@.columns.push(column@), ..self@ }),
    {
        let mut builder = self;
        let name = column.to_owned();
        assert(names_of(builder.columns@.push(name)) =~= names_of(builder.columns@).push(name@));
        builder.columns.push(name);
        builder
    }

    /// Takes the rows from a nested statement; values given by `column` are
    /// then left out of the text.
    pub fn select(self, select: impl IntoQuery) -> (builder: Self)
        ensures
            builder@ == (InsertView { select: Some(select.query_sql()), ..self@ }),
    {
        let mut builder = self;
        let query = select.into_query();
        builder.select = Some(query);
        builder
    }

    /// Appends the statement text to `buffer`.
    pub fn generate(&self, buffer: &mut String)
        ensures
            final(buffer)@ == old(buffer)@ + insert_sql(self@),
    {
        buffer.append("insert ");
        if self.ignore {
            buffer.append("or ignore ");
        }
        buffer.append("into ");
        push_quoted(buffer, self.table.as_str());
        let ghost head = buffer@;
        assert(head =~= old(buffer)@ + ("insert "@ + (if self.ignore {
            "or ignore "@
        } else {
            Seq::empty()
        }) + "into "@ + quoted(self@.table)));
        if self.columns.len() > 0 {
            buffer.append(" (");
            let ghost start = buffer@;
            let ghost texts = quoted_names(names_of(self.columns@));
            let mut i: usize = 0;
            while i < self.columns.len()
                invariant
                    i <= self.columns.len(),
                    texts == quoted_names(names_of(self.columns@)),
                    buffer@ == start + joined(texts.take(i as int), ","@),
                decreases self.columns.len() - i,
            {
                if i > 0 {
                    buffer.append(",");
                }
                Column::generate_name(buffer, self.columns[i].as_str());
                proof {
                    lemma_joined_push(texts.take(i as int), texts[i as int], ","@);
                    assert(texts.take(i as int).push(texts[i as int]) =~= texts.take(i + 1));
                }
                i = i + 1;
            }
            assert(texts.take(self.columns.len() as int) =~= texts);
            buffer.append(") ");
        }
        assert(buffer@ =~= head + insert_columns_sql(self@.columns));
        if let Some(select) = &self.select {
            select.generate(buffer);
        } else if self.values.len() > 0 {
            buffer.append("values (");
            generate_joined(&self.values, ",", buffer);
            buffer.append(")");
        }
    }
}

impl IntoQuery for Insert {
    open spec fn query_sql(&self) -> Seq<char> {
        insert_sql(self@)
    }

    fn into_query(self) -> (query: Query) {
        let mut buffer = String::new();
        self.generate(&mut buffer);
        Query::from_text(buffer)
    }
}

} // verus!
