//! Result columns of a statement.

use super::value::wrapped_sql;
use super::{IntoValue, Value};
use crate::text::{joined, lemma_joined_push, push_quoted_name, quoted_name};
use vstd::prelude::*;

verus! {

/// One result column: the wildcard, a name, a name with an alias, or an
/// expression with or without an alias.
#[derive(Debug)]
pub enum Column {
    All,
    Name(String),
    Alias(String, String),
    Value(Box<Value>),
    ValueAlias(String, Box<Value>),
}

impl Column {
    /// The SQL text of this column. Names and aliases are quoted segment by
    /// segment, so that `table.column` stays a two-part reference.
    pub open spec fn sql(&self) -> Seq<char>
        decreases self,
    {
        match self {
            Column::All => seq!['*'],
            Column::Name(name) => quoted_name(name@),
            Column::Alias(name, alias) => quoted_name(name@) + " as "@ + quoted_name(alias@),
            Column::Value(value) => value.sql(),
            Column::ValueAlias(alias, value) => value.sql() + " as "@ + quoted_name(alias@),
        }
    }

    /// Appends `name` to `buffer`, split at each `.`, every part between backticks.
    pub fn generate_name(buffer: &mut String, name: &str)
        ensures
            final(buffer)@ == old(buffer)@ + quoted_name(name@),
    {
        push_quoted_name(buffer, name)
    }

    /// Appends the text of this column to `buffer`.
    pub fn generate(&self, buffer: &mut String)
        ensures
            final(buffer)@ == old(buffer)@ + self.sql(),
        decreases self,
    {
        match self {
            Column::All => {
                proof {
                    reveal_strlit("*");
                }
                buffer.append("*");
                assert("*"@ =~= seq!['*']);
            },
            Column::Name(name) => {
                Self::generate_name(buffer, name.as_str());
            },
            Column::Alias(name, alias) => {
                Self::generate_name(buffer, name.as_str());
                buffer.append(" as ");
                Self::generate_name(buffer, alias.as_str());
            },
            Column::Value(value) => value.generate(buffer),
            Column::ValueAlias(alias, value) => {
                value.generate(buffer);
                buffer.append(" as ");
                Self::generate_name(buffer, alias.as_str());
            },
        }
    }
}

impl Clone for Column {
    fn clone(&self) -> (copy: Self)
        ensures
            copy == *self,
        decreases self,
    {
        match self {
            Column::All => Column::All,
            Column::Name(name) => Column::Name(name.clone()),
            Column::Alias(name, alias) => Column::Alias(name.clone(), alias.clone()),
            Column::Value(value) => Column::Value(Box::new((**value).clone())),
            Column::ValueAlias(alias, value) => Column::ValueAlias(
                alias.clone(),
                Box::new((**value).clone()),
            ),
        }
    }
}

/// The text of each column, in order.
pub open spec fn columns_sql(columns: Seq<Column>) -> Seq<Seq<char>> {
    Seq::new(columns.len(), |i: int| columns[i].sql())
}

/// The ordered list of result columns of a statement.
#[derive(Debug)]
pub struct Columns {
    columns: Vec<Column>,
}

impl View for Columns {
    type V = Seq<Seq<char>>;

    /// The text of each column, in the order in which they were added.
    closed spec fn view(&self) -> Seq<Seq<char>> {
        columns_sql(self.columns@)
    }
}

impl Columns {
    /// The SQL text of the list: the columns separated by commas.
    pub open spec fn sql(&self) -> Seq<char> {
        joined(self@, seq![','])
    }

    pub fn list() -> (list: Self)
        ensures
            list@ == Seq::<Seq<char>>::empty(),
    {
        let list = Self { columns: Vec::new() };
        assert(list@ =~= Seq::<Seq<char>>::empty());
        list
    }

    pub fn push(&mut self, column: Column)
        ensures
            final(self)@ == old(self)@.push(column.sql()),
    {
        self.columns.push(column);
        assert(self@ =~= old(self)@.push(column.sql()));
    }

    pub fn all(self) -> (list: Self)
        ensures
            list@ == self@.push(seq!['*']),
    {
        let mut list = self;
        list.push(Column::All);
        list
    }

    pub fn column(self, name: &str) -> (list: Self)
        ensures
            list@ == self@.push(quoted_name(name@)),
    {
        let mut list = self;
        list.push(Column::Name(name.to_owned()));
        list
    }

    pub fn alias(self, name: &str, alias: &str) -> (list: Self)
        ensures
            list@ == self@.push(quoted_name(name@) + " as "@ + quoted_name(alias@)),
    {
        let mut list = self;
        list.push(Column::Alias(name.to_owned(), alias.to_owned()));
        list
    }

    pub fn count_all(self) -> (list: Self)
        ensures
            list@ == self@.push("count"@ + seq!['('] + seq!['*'] + seq![')']),
    {
        self.value(Value::Count(Box::new(Column::All.into_value())))
    }

    pub fn value(self, value: impl IntoValue) -> (list: Self)
        ensures
            list@ == self@.push(value.value_sql()),
    {
        let mut list = self;
        list.push(Column::Value(Box::new(value.into_value())));
        list
    }

    pub fn value_as(self, alias: &str, value: impl IntoValue) -> (list: Self)
        ensures
            list@ == self@.push(value.value_sql() + " as "@ + quoted_name(alias@)),
    {
        let mut list = self;
        list.push(Column::ValueAlias(alias.to_owned(), Box::new(value.into_value())));
        list
    }

    /// Appends the columns to `buffer`, separated by commas.
    pub fn generate(&self, buffer: &mut String)
        ensures
            final(buffer)@ == old(buffer)@ + self.sql(),
    {
        let mut i: usize = 0;
        while i < self.columns.len()
            invariant
                i <= self.columns.len(),
                buffer@ == old(buffer)@ + joined(self@.take(i as int), seq![',']),
            decreases self.columns.len() - i,
        {
            if i > 0 {
                proof {
                    reveal_strlit(",");
                }
                buffer.append(",");
            }
            self.columns[i].generate(buffer);
            proof {
                lemma_joined_push(self@.take(i as int), self@[i as int], seq![',']);
                assert(self@.take(i as int).push(self@[i as int]) =~= self@.take(i + 1));
            }
            i = i + 1;
        }
        assert(self@.take(self.columns.len() as int) =~= self@);
    }
}

/// What can stand where a list of result columns is expected.
pub trait IntoColumns: Sized {
    /// The text of each column of the list that `self` becomes.
    spec fn column_texts(&self) -> Seq<Seq<char>>;

    fn into_columns(self) -> (list: Columns)
        ensures
            list@ == self.column_texts(),
    ;
}

impl IntoColumns for Columns {
    open spec fn column_texts(&self) -> Seq<Seq<char>> {
        self@
    }

    fn into_columns(self) -> (list: Columns) {
        self
    }
}

impl IntoColumns for Column {
    open spec fn column_texts(&self) -> Seq<Seq<char>> {
        seq![self.sql()]
    }

    fn into_columns(self) -> (list: Columns) {
        let mut list = Columns::list();
        list.push(self);
        list
    }
}

impl IntoColumns for Value {
    open spec fn column_texts(&self) -> Seq<Seq<char>> {
        seq![self.sql()]
    }

    fn into_columns(self) -> (list: Columns) {
        Column::Value(Box::new(self)).into_columns()
    }
}

impl<T: IntoValue> core::ops::Add<T> for Column {
    type Output = Value;

    /// `(self+rhs)`.
    fn add(self, rhs: T) -> (result: Value)
        ensures
            result.sql() == wrapped_sql(self.sql(), "+"@, rhs.value_sql()),
            result matches Value::Add(left, right) && *left == Value::Column(self) && rhs.becomes(*right),
    {
        Value::Add(Box::new(self.into_value()), Box::new(rhs.into_value()))
    }
}

impl<T: IntoValue> vstd::std_specs::ops::AddSpecImpl<T> for Column {
    /// The operator builds a tree, which `add` states by its text.
    open spec fn obeys_add_spec() -> bool {
        false
    }

    open spec fn add_req(self, rhs: T) -> bool {
        true
    }

    open spec fn add_spec(self, rhs: T) -> Value {
        arbitrary()
    }
}

impl<T: IntoValue> core::ops::Sub<T> for Column {
    type Output = Value;

    /// `(self-rhs)`.
    fn sub(self, rhs: T) -> (result: Value)
        ensures
            result.sql() == wrapped_sql(self.sql(), "-"@, rhs.value_sql()),
            result matches Value::Sub(left, right) && *left == Value::Column(self) && rhs.becomes(*right),
    {
        Value::Sub(Box::new(self.into_value()), Box::new(rhs.into_value()))
    }
}

impl<T: IntoValue> vstd::std_specs::ops::SubSpecImpl<T> for Column {
    /// The operator builds a tree, which `sub` states by its text.
    open spec fn obeys_sub_spec() -> bool {
        false
    }

    open spec fn sub_req(self, rhs: T) -> bool {
        true
    }

    open spec fn sub_spec(self, rhs: T) -> Value {
        arbitrary()
    }
}

impl<T: IntoValue> core::ops::Mul<T> for Column {
    type Output = Value;

    /// `(self*rhs)`.
    fn mul(self, rhs: T) -> (result: Value)
        ensures
            result.sql() == wrapped_sql(self.sql(), "*"@, rhs.value_sql()),
            result matches Value::Mul(left, right) && *left == Value::Column(self) && rhs.becomes(*right),
    {
        Value::Mul(Box::new(self.into_value()), Box::new(rhs.into_value()))
    }
}

impl<T: IntoValue> vstd::std_specs::ops::MulSpecImpl<T> for Column {
    /// The operator builds a tree, which `mul` states by its text.
    open spec fn obeys_mul_spec() -> bool {
        false
    }

    open spec fn mul_req(self, rhs: T) -> bool {
        true
    }

    open spec fn mul_spec(self, rhs: T) -> Value {
        arbitrary()
    }
}

impl<T: IntoValue> core::ops::Div<T> for Column {
    type Output = Value;

    /// `(self/rhs)`.
    fn div(self, rhs: T) -> (result: Value)
        ensures
            result.sql() == wrapped_sql(self.sql(), "/"@, rhs.value_sql()),
            result matches Value::Div(left, right) && *left == Value::Column(self) && rhs.becomes(*right),
    {
        Value::Div(Box::new(self.into_value()), Box::new(rhs.into_value()))
    }
}

impl<T: IntoValue> vstd::std_specs::ops::DivSpecImpl<T> for Column {
    /// The operator builds a tree, which `div` states by its text.
    open spec fn obeys_div_spec() -> bool {
        false
    }

    open spec fn div_req(self, rhs: T) -> bool {
        true
    }

    open spec fn div_spec(self, rhs: T) -> Value {
        arbitrary()
    }
}

} // verus!
