//! The `select` statement.

use super::clauses::{
    alias_sql,
    generate_alias,
    generate_where,
    lemma_values_push,
    option_sql,
    option_text,
    values_sql,
    where_sql,
};
use super::join::join_sql;
use super::{Column, Columns, IntoColumns, IntoQuery, IntoValue, Join, Query, Value};
use crate::text::{
    joined,
    lemma_joined_push,
    lemma_prefixed_push,
    prefixed,
    push_quoted,
    quoted,
    quoted_name,
};
use vstd::prelude::*;

verus! {

/// The result columns of a `select` whose table is still to be named.
pub struct SelectBeforeFrom {
    columns: Columns,
}

impl View for SelectBeforeFrom {
    type V = Seq<Seq<char>>;

    /// The text of each result column.
    closed spec fn view(&self) -> Seq<Seq<char>> {
        self.columns@
    }
}

/// One term of the `order by` clause.
pub enum OrderBy {
    Asc(Value),
    Desc(Value),
}

impl OrderBy {
    /// The text of the term: the expression and its direction.
    pub open spec fn sql(&self) -> Seq<char> {
        match self {
            OrderBy::Asc(value) => value.sql() + " asc"@,
            OrderBy::Desc(value) => value.sql() + " desc"@,
        }
    }
}

/// What a `select` builder holds, each clause as the text of its parts, in
/// the order in which they were declared.
pub struct SelectView {
    /// Each common table expression: the quoted name, ` as (`, the statement, `)`.
    pub with: Seq<Seq<char>>,
    pub columns: Seq<Seq<char>>,
    pub from: Seq<char>,
    pub from_as: Option<Seq<char>>,
    /// The text of each join clause.
    pub joins: Seq<Seq<char>>,
    pub where_clauses: Seq<Seq<char>>,
    /// Each ordering term: the expression followed by ` asc` or ` desc`.
    pub order_by: Seq<Seq<char>>,
    pub limit: Option<Seq<char>>,
    pub offset: Option<Seq<char>>,
}

/// The view of a `select` on `table` that has nothing but its columns yet.
pub open spec fn plain_select(
    columns: Seq<Seq<char>>,
    table: Seq<char>,
    alias: Option<Seq<char>>,
) -> SelectView {
    SelectView {
        with: Seq::empty(),
        columns,
        from: table,
        from_as: alias,
        joins: Seq::empty(),
        where_clauses: Seq::empty(),
        order_by: Seq::empty(),
        limit: None,
        offset: None,
    }
}

/// The text of one common table expression.
pub open spec fn with_item_sql(name: Seq<char>, statement: Seq<char>) -> Seq<char> {
    quoted(name) + " as ("@ + statement + ")"@
}

/// The leading `with` block: nothing without an expression, else `with `, the
/// expressions separated by commas, and a space.
pub open spec fn with_sql(items: Seq<Seq<char>>) -> Seq<char> {
    if items.len() == 0 {
        Seq::empty()
    } else {
        "with "@ + joined(items, ","@) + " "@
    }
}

/// `keyword` and the expression, or nothing where there is no expression.
pub open spec fn bound_sql(keyword: Seq<char>, value: Option<Seq<char>>) -> Seq<char> {
    match value {
        Some(text) => keyword + text,
        None => Seq::empty(),
    }
}

/// The text of a `select` statement.
pub open spec fn select_sql(v: SelectView) -> Seq<char> {
    with_sql(v.with) + "select "@ + joined(v.columns, seq![',']) + " from "@ + quoted(v.from)
        + alias_sql(v.from_as) + prefixed(v.joins, " "@) + where_sql(v.where_clauses)
        + order_by_sql(v.order_by) + bound_sql(" limit "@, v.limit) + bound_sql(
        " offset "@,
        v.offset,
    )
}

/// The `order by` clause: nothing without a term, else ` order by ` and the
/// terms in the order of their declaration, separated by commas, so that
/// each term after the first orders the rows that the terms before it leave
/// equal.
pub open spec fn order_by_sql(terms: Seq<Seq<char>>) -> Seq<char> {
    if terms.len() == 0 {
        Seq::empty()
    } else {
        " order by "@ + joined(terms, ","@)
    }
}

/// The text of each common table expression, in order.
pub open spec fn with_items_sql(items: Seq<(String, Query)>) -> Seq<Seq<char>> {
    Seq::new(items.len(), |i: int| with_item_sql(items[i].0@, items[i].1@))
}

/// The text of each join clause, in order.
pub open spec fn joins_sql(joins: Seq<Join>) -> Seq<Seq<char>> {
    Seq::new(joins.len(), |i: int| join_sql(joins[i]@))
}

/// The text of each ordering term, in order.
pub open spec fn order_sql(terms: Seq<OrderBy>) -> Seq<Seq<char>> {
    Seq::new(terms.len(), |i: int| terms[i].sql())
}

/// Builder of a `select` statement.
pub struct Select {
    from: String,
    columns: Columns,
    from_as: Option<String>,
    where_clauses: Vec<Value>,
    joins: Vec<Join>,
    order_by: Vec<OrderBy>,
    limit: Option<Value>,
    offset: Option<Value>,
    with: Vec<(String, Query)>,
}

impl View for Select {
    type V = SelectView;

    closed spec fn view(&self) -> SelectView {
        SelectView {
            with: with_items_sql(self.with@),
            columns: self.columns@,
            from: self.from@,
            from_as: option_text(self.from_as),
            joins: joins_sql(self.joins@),
            where_clauses: values_sql(self.where_clauses@),
            order_by: order_sql(self.order_by@),
            limit: option_sql(self.limit),
            offset: option_sql(self.offset),
        }
    }
}

impl SelectBeforeFrom {
    /// Names the table that the columns are read from.
    pub fn from(self, table: &str) -> (select: Select)
        ensures
            select@ == plain_select(self@, table@, None),
    {
        Select::start(self.columns, table, None)
    }

    /// Names the table that the columns are read from, and an alias for it.
    pub fn from_as(self, table: &str, alias: &str) -> (select: Select)
        ensures
            select@ == plain_select(self@, table@, Some(alias@)),
    {
        Select::start(self.columns, table, Some(alias.to_owned()))
    }
}

impl Select {
    fn start(columns: Columns, table: &str, alias: Option<String>) -> (select: Select)
        ensures
            select@ == plain_select(columns@, table@, option_text(alias)),
    {
        let select = Select {
            columns,
            from: table.to_owned(),
            from_as: alias,
            where_clauses: Vec::new(),
            joins: Vec::new(),
            order_by: Vec::new(),
            limit: None,
            offset: None,
            with: Vec::new(),
        };
        assert(select@.with =~= Seq::empty());
        assert(select@.joins =~= Seq::empty());
        assert(select@.where_clauses =~= Seq::empty());
        assert(select@.order_by =~= Seq::empty());
        select
    }

    /// Starts a `select` from its result columns.
    pub fn columns(columns: impl IntoColumns) -> (before: SelectBeforeFrom)
        ensures
            before@ == columns.column_texts(),
    {
        SelectBeforeFrom { columns: columns.into_columns() }
    }

    /// Starts a `select` on `table` with no column yet.
    pub fn from(table: &str) -> (select: Select)
        ensures
            select@ == plain_select(Seq::empty(), table@, None),
    {
        Self::start(Columns::list(), table, None)
    }

    /// Starts a `select` on `table` under an alias, with no column yet.
    pub fn from_as(table: &str, alias: &str) -> (select: Select)
        ensures
            select@ == plain_select(Seq::empty(), table@, Some(alias@)),
    {
        Self::start(Columns::list(), table, Some(alias.to_owned()))
    }

    pub fn column(self, column: &str) -> (select: Self)
        ensures
            select@ == (SelectView { columns: self@.columns.push(quoted_name(column@)), ..self@ }),
    {
        let mut select = self;
        select.columns.push(Column::Name(column.to_owned()));
        select
    }

    pub fn all_columns(self) -> (select: Self)
        ensures
            select@ == (SelectView { columns: self@.columns.push(seq!['*']), ..self@ }),
    {
        let mut select = self;
        select.columns.push(Column::All);
        select
    }

    pub fn column_as(self, column: &str, alias: &str) -> (select: Self)
        ensures
            select@ == (SelectView {
                columns: self@.columns.push(quoted_name(column@) + " as "@ + quoted_name(alias@)),
                ..self@
            }),
    {
        let mut select = self;
        select.columns.push(Column::Alias(column.to_owned(), alias.to_owned()));
        select
    }

    pub fn column_value(self, value: impl IntoValue) -> (select: Self)
        ensures
            select@ == (SelectView { columns: self@.columns.push(value.value_sql()), ..self@ }),
    {
        let mut select = self;
        select.columns.push(Column::Value(Box::new(value.into_value())));
        select
    }

    /// Adds a condition; the conditions are joined by ` and `.
    pub fn condition(self, clause: impl IntoValue) -> (select: Self)
        ensures
            select@ == (SelectView {
                where_clauses: self@.where_clauses.push(clause.value_sql()),
                ..self@
            }),
    {
        let mut select = self;
        let clause = clause.into_value();
        proof {
            lemma_values_push(select.where_clauses@, clause);
        }
        select.where_clauses.push(clause);
        select
    }

    /// Adds the condition that `column` equals `value`.
    pub fn where_column(self, column: &str, value: impl IntoValue) -> (select: Self)
        ensures
            select@ == (SelectView {
                where_clauses: self@.where_clauses.push(
                    quoted_name(column@) + "="@ + value.value_sql(),
                ),
                ..self@
            }),
    {
        self.condition(crate::query::eq(crate::query::column(column), value))
    }

    /// Adds a join; joins are written in the order in which they are added.
    pub fn join(self, join: Join) -> (select: Self)
        ensures
            select@ == (SelectView { joins: self@.joins.push(join_sql(join@)), ..self@ }),
    {
        let mut select = self;
        assert(joins_sql(select.joins@.push(join)) =~= joins_sql(select.joins@).push(
            join_sql(join@),
        ));
        select.joins.push(join);
        select
    }

    /// Adds a common table expression under `name`.
    pub fn with(self, name: &str, query: impl IntoQuery) -> (select: Self)
        ensures
            select@ == (SelectView {
                with: self@.with.push(with_item_sql(name@, query.query_sql())),
                ..self@
            }),
    {
        let mut select = self;
        let item = (name.to_owned(), query.into_query());
        assert(with_items_sql(select.with@.push(item)) =~= with_items_sql(select.with@).push(
            with_item_sql(item.0@, item.1@),
        ));
        select.with.push(item);
        select
    }

    /// Adds an ascending ordering term after those already there.
    pub fn order_by_asc(self, value: impl IntoValue) -> (select: Self)
        ensures
            select@ == (SelectView {
                order_by: self@.order_by.push(value.value_sql() + " asc"@),
                ..self@
            }),
    {
        let mut select = self;
        let term = OrderBy::Asc(value.into_value());
        assert(order_sql(select.order_by@.push(term)) =~= order_sql(select.order_by@).push(
            term.sql(),
        ));
        select.order_by.push(term);
        select
    }

    /// Adds a descending ordering term after those already there.
    pub fn order_by_desc(self, value: impl IntoValue) -> (select: Self)
        ensures
            select@ == (SelectView {
                order_by: self@.order_by.push(value.value_sql() + " desc"@),
                ..self@
            }),
    {
        let mut select = self;
        let term = OrderBy::Desc(value.into_value());
        assert(order_sql(select.order_by@.push(term)) =~= order_sql(select.order_by@).push(
            term.sql(),
        ));
        select.order_by.push(term);
        select
    }

    /// Adds the ordering term `random() asc`.
    pub fn order_by_random(self) -> (select: Self)
        ensures
            select@ == (SelectView {
                order_by: self@.order_by.push("random()"@ + " asc"@),
                ..self@
            }),
    {
        self.order_by_asc(Value::Random)
    }

    /// Sets the `limit` expression, replacing an earlier one.
    pub fn limit(self, limit: impl IntoValue) -> (select: Self)
        ensures
            select@ == (SelectView { limit: Some(limit.value_sql()), ..self@ }),
    {
        let mut select = self;
        select.limit = Some(limit.into_value());
        select
    }

    /// Sets the `offset` expression, replacing an earlier one.
    pub fn offset(self, offset: impl IntoValue) -> (select: Self)
        ensures
            select@ == (SelectView { offset: Some(offset.value_sql()), ..self@ }),
    {
        let mut select = self;
        select.offset = Some(offset.into_value());
        select
    }

    fn generate_with(&self, buffer: &mut String)
        ensures
            final(buffer)@ == old(buffer)@ + with_sql(self@.with),
    {
        if self.with.len() > 0 {
            buffer.append("with ");
            let ghost start = buffer@;
            let ghost texts = with_items_sql(self.with@);
            let mut i: usize = 0;
            while i < self.with.len()
                invariant
                    i <= self.with.len(),
                    texts == with_items_sql(self.with@),
                    buffer@ == start + joined(texts.take(i as int), ","@),
                decreases self.with.len() - i,
            {
                if i > 0 {
                    buffer.append(",");
                }
                let item = &self.with[i];
                push_quoted(buffer, item.0.as_str());
                buffer.append(" as (");
                item.1.generate(buffer);
                buffer.append(")");
                proof {
                    lemma_joined_push(texts.take(i as int), texts[i as int], ","@);
                    assert(texts.take(i as int).push(texts[i as int]) =~= texts.take(i + 1));
                }
                i = i + 1;
            }
            assert(texts.take(self.with.len() as int) =~= texts);
            buffer.append(" ");
        }
    }

    fn generate_joins(&self, buffer: &mut String)
        ensures
            final(buffer)@ == old(buffer)@ + prefixed(self@.joins, " "@),
    {
        let ghost texts = joins_sql(self.joins@);
        let mut i: usize = 0;
        while i < self.joins.len()
            invariant
                i <= self.joins.len(),
                texts == joins_sql(self.joins@),
                buffer@ == old(buffer)@ + prefixed(texts.take(i as int), " "@),
            decreases self.joins.len() - i,
        {
            buffer.append(" ");
            self.joins[i].generate(buffer);
            proof {
                lemma_prefixed_push(texts.take(i as int), texts[i as int], " "@);
                assert(texts.take(i as int).push(texts[i as int]) =~= texts.take(i + 1));
            }
            i = i + 1;
        }
        assert(texts.take(self.joins.len() as int) =~= texts);
    }

    fn generate_order(&self, buffer: &mut String)
        ensures
            final(buffer)@ == old(buffer)@ + order_by_sql(self@.order_by),
    {
        if self.order_by.len() > 0 {
            buffer.append(" order by ");
            let ghost start = buffer@;
            let ghost texts = order_sql(self.order_by@);
            let mut i: usize = 0;
            while i < self.order_by.len()
                invariant
                    i <= self.order_by.len(),
                    texts == order_sql(self.order_by@),
                    buffer@ == start + joined(texts.take(i as int), ","@),
                decreases self.order_by.len() - i,
            {
                if i > 0 {
                    buffer.append(",");
                }
                match &self.order_by[i] {
                    OrderBy::Asc(value) => {
                        value.generate(buffer);
                        buffer.append(" asc");
                    },
                    OrderBy::Desc(value) => {
                        value.generate(buffer);
                        buffer.append(" desc");
                    },
                }
                proof {
                    lemma_joined_push(texts.take(i as int), texts[i as int], ","@);
                    assert(texts.take(i as int).push(texts[i as int]) =~= texts.take(i + 1));
                }
                i = i + 1;
            }
            assert(texts.take(self.order_by.len() as int) =~= texts);
        }
    }

    fn generate_bound(keyword: &str, value: &Option<Value>, buffer: &mut String)
        ensures
            final(buffer)@ == old(buffer)@ + bound_sql(keyword@, option_sql(*value)),
    {
        if let Some(expression) = value {
            buffer.append(keyword);
            expression.generate(buffer);
        }
    }

    /// Appends the statement text to `buffer`.
    pub fn generate(&self, buffer: &mut String)
        ensures
            final(buffer)@ == old(buffer)@ + select_sql(self@),
    {
        let ghost start = buffer@;
        let ghost v = self@;
        self.generate_with(buffer);
        buffer.append("select ");
        self.columns.generate(buffer);
        let ghost columns = with_sql(v.with) + "select "@ + joined(v.columns, seq![',']);
        assert(buffer@ =~= start + columns);
        buffer.append(" from ");
        push_quoted(buffer, self.from.as_str());
        generate_alias(&self.from_as, buffer);
        let ghost source = columns + " from "@ + quoted(v.from) + alias_sql(v.from_as);
        assert(buffer@ =~= start + source);
        self.generate_joins(buffer);
        generate_where(&self.where_clauses, buffer);
        let ghost filtered = source + prefixed(v.joins, " "@) + where_sql(v.where_clauses);
        assert(buffer@ =~= start + filtered);
        self.generate_order(buffer);
        Self::generate_bound(" limit ", &self.limit, buffer);
        Self::generate_bound(" offset ", &self.offset, buffer);
        assert(buffer@ =~= start + (filtered + order_by_sql(v.order_by) + bound_sql(
            " limit "@,
            v.limit,
        ) + bound_sql(" offset "@, v.offset)));
    }
}

impl IntoQuery for Select {
    open spec fn query_sql(&self) -> Seq<char> {
        select_sql(self@)
    }

    fn into_query(self) -> (query: Query) {
        let mut buffer = String::new();
        self.generate(&mut buffer);
        Query::from_text(buffer)
    }
}

} // verus!
