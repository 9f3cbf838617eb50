//! The expression tree and its text generator.

use super::{Column, IntoQuery, Query};
use crate::text::{int_decimal, push_int};
use vstd::prelude::*;

verus! {

/// A node of an SQL expression tree. A tree is not changed once it is built.
///
/// `Double` holds the decimal text of a floating-point literal; `String` holds
/// a text that is written between single quotes as it is, without escaping.
#[derive(Debug)]
pub enum Value {
    Sum(Box<Value>),
    Max(Box<Value>),
    Avg(Box<Value>),
    Coalesce(Box<Value>, Box<Value>),
    Column(Column),
    Param(i64),
    Integer(i64),
    Double(String),
    String(String),
    Count(Box<Value>),
    As(Box<Value>, String),
    Add(Box<Value>, Box<Value>),
    Sub(Box<Value>, Box<Value>),
    Mul(Box<Value>, Box<Value>),
    Div(Box<Value>, Box<Value>),
    And(Box<Value>, Box<Value>),
    Or(Box<Value>, Box<Value>),
    Eq(Box<Value>, Box<Value>),
    Ne(Box<Value>, Box<Value>),
    Ge(Box<Value>, Box<Value>),
    Gt(Box<Value>, Box<Value>),
    Le(Box<Value>, Box<Value>),
    Lt(Box<Value>, Box<Value>),
    NotIn(Box<Value>, Box<Value>),
    In(Box<Value>, Box<Value>),
    InlineQuery(Query),
    IsNull(Box<Value>),
    IsNotNull(Box<Value>),
    BoolToInteger(Box<Value>),
    Random,
    Now,
}

/// `name(inner)`, the text of an aggregate or function call.
pub open spec fn call_sql(name: Seq<char>, inner: Seq<char>) -> Seq<char> {
    name + seq!['('] + inner + seq![')']
}

/// `(a op b)`, the text of an arithmetic or logical operation.
pub open spec fn wrapped_sql(a: Seq<char>, op: Seq<char>, b: Seq<char>) -> Seq<char> {
    seq!['('] + a + op + b + seq![')']
}

/// `a op b`, the text of a comparison, which adds no parentheses of its own.
pub open spec fn bare_sql(a: Seq<char>, op: Seq<char>, b: Seq<char>) -> Seq<char> {
    a + op + b
}

impl Value {
    /// The SQL text that this tree stands for.
    pub open spec fn sql(&self) -> Seq<char>
        decreases self,
    {
        match self {
            Value::Sum(v) => call_sql("sum"@, v.sql()),
            Value::Max(v) => call_sql("max"@, v.sql()),
            Value::Avg(v) => call_sql("avg"@, v.sql()),
            Value::Coalesce(a, b) => call_sql("coalesce"@, a.sql() + seq![','] + b.sql()),
            Value::Column(c) => c.sql(),
            Value::Param(n) => seq!['?'] + int_decimal(*n as int),
            Value::Integer(n) => int_decimal(*n as int),
            Value::Double(t) => t@,
            Value::String(t) => seq!['\''] + t@ + seq!['\''],
            Value::Count(v) => call_sql("count"@, v.sql()),
            Value::As(v, alias) => v.sql() + " as "@ + seq!['`'] + alias@ + seq!['`'],
            Value::Add(a, b) => wrapped_sql(a.sql(), "+"@, b.sql()),
            Value::Sub(a, b) => wrapped_sql(a.sql(), "-"@, b.sql()),
            Value::Mul(a, b) => wrapped_sql(a.sql(), "*"@, b.sql()),
            Value::Div(a, b) => wrapped_sql(a.sql(), "/"@, b.sql()),
            Value::And(a, b) => wrapped_sql(a.sql(), " and "@, b.sql()),
            Value::Or(a, b) => wrapped_sql(a.sql(), " or "@, b.sql()),
            Value::Eq(a, b) => bare_sql(a.sql(), "="@, b.sql()),
            Value::Ne(a, b) => bare_sql(a.sql(), "<>"@, b.sql()),
            Value::Ge(a, b) => bare_sql(a.sql(), ">="@, b.sql()),
            Value::Gt(a, b) => bare_sql(a.sql(), ">"@, b.sql()),
            Value::Le(a, b) => bare_sql(a.sql(), "<="@, b.sql()),
            Value::Lt(a, b) => bare_sql(a.sql(), "<"@, b.sql()),
            Value::NotIn(a, b) => bare_sql(a.sql(), " not in "@, b.sql()),
            Value::In(a, b) => bare_sql(a.sql(), " in "@, b.sql()),
            Value::InlineQuery(q) => seq!['('] + q@ + seq![')'],
            Value::IsNull(v) => v.sql() + " is null"@,
            Value::IsNotNull(v) => v.sql() + " is not null"@,
            Value::BoolToInteger(v) => "(case when "@ + v.sql() + " then 1 else 0 end)"@,
            Value::Random => "random()"@,
            Value::Now => "datetime('now')"@,
        }
    }

    /// Appends the text of this tree to `buffer`. The text is a function of the
    /// tree alone, so every run on one tree appends the same characters.
    pub fn generate(&self, buffer: &mut String)
        ensures
            final(buffer)@ == old(buffer)@ + self.sql(),
        decreases self,
    {
        proof {
            reveal_strlit("?");
            reveal_strlit("'");
            reveal_strlit("`");
            reveal_strlit("(");
            reveal_strlit(")");
            reveal_strlit(",");
        }
        match self {
            Value::Sum(field) => {
                buffer.append("sum");
                buffer.append("(");
                field.generate(buffer);
                buffer.append(")");
            },
            Value::Max(field) => {
                buffer.append("max");
                buffer.append("(");
                field.generate(buffer);
                buffer.append(")");
            },
            Value::Avg(field) => {
                buffer.append("avg");
                buffer.append("(");
                field.generate(buffer);
                buffer.append(")");
            },
            Value::Coalesce(a, b) => {
                buffer.append("coalesce");
                buffer.append("(");
                a.generate(buffer);
                buffer.append(",");
                b.generate(buffer);
                buffer.append(")");
            },
            Value::Column(column) => column.generate(buffer),
            Value::Param(value) => {
                buffer.append("?");
                push_int(buffer, *value);
            },
            Value::Integer(value) => push_int(buffer, *value),
            Value::Double(text) => buffer.append(text.as_str()),
            Value::String(text) => {
                buffer.append("'");
                buffer.append(text.as_str());
                buffer.append("'");
            },
            Value::Count(field) => {
                buffer.append("count");
                buffer.append("(");
                field.generate(buffer);
                buffer.append(")");
            },
            Value::As(field, alias) => {
                field.generate(buffer);
                buffer.append(" as ");
                buffer.append("`");
                buffer.append(alias.as_str());
                buffer.append("`");
            },
            Value::Add(a, b) => {
                buffer.append("(");
                a.generate(buffer);
                buffer.append("+");
                b.generate(buffer);
                buffer.append(")");
            },
            Value::Sub(a, b) => {
                buffer.append("(");
                a.generate(buffer);
                buffer.append("-");
                b.generate(buffer);
                buffer.append(")");
            },
            Value::Mul(a, b) => {
                buffer.append("(");
                a.generate(buffer);
                buffer.append("*");
                b.generate(buffer);
                buffer.append(")");
            },
            Value::Div(a, b) => {
                buffer.append("(");
                a.generate(buffer);
                buffer.append("/");
                b.generate(buffer);
                buffer.append(")");
            },
            Value::And(a, b) => {
                buffer.append("(");
                a.generate(buffer);
                buffer.append(" and ");
                b.generate(buffer);
                buffer.append(")");
            },
            Value::Or(a, b) => {
                buffer.append("(");
                a.generate(buffer);
                buffer.append(" or ");
                b.generate(buffer);
                buffer.append(")");
            },
            Value::Eq(a, b) => {
                a.generate(buffer);
                buffer.append("=");
                b.generate(buffer);
            },
            Value::Ne(a, b) => {
                a.generate(buffer);
                buffer.append("<>");
                b.generate(buffer);
            },
            Value::Ge(a, b) => {
                a.generate(buffer);
                buffer.append(">=");
                b.generate(buffer);
            },
            Value::Gt(a, b) => {
                a.generate(buffer);
                buffer.append(">");
                b.generate(buffer);
            },
            Value::Le(a, b) => {
                a.generate(buffer);
                buffer.append("<=");
                b.generate(buffer);
            },
            Value::Lt(a, b) => {
                a.generate(buffer);
                buffer.append("<");
                b.generate(buffer);
            },
            Value::NotIn(a, b) => {
                a.generate(buffer);
                buffer.append(" not in ");
                b.generate(buffer);
            },
            Value::In(a, b) => {
                a.generate(buffer);
                buffer.append(" in ");
                b.generate(buffer);
            },
            Value::InlineQuery(query) => {
                buffer.append("(");
                query.generate(buffer);
                buffer.append(")");
            },
            Value::IsNull(value) => {
                value.generate(buffer);
                buffer.append(" is null");
            },
            Value::IsNotNull(value) => {
                value.generate(buffer);
                buffer.append(" is not null");
            },
            Value::BoolToInteger(value) => {
                buffer.append("(case when ");
                value.generate(buffer);
                buffer.append(" then 1 else 0 end)");
            },
            Value::Random => buffer.append("random()"),
            Value::Now => buffer.append("datetime('now')"),
        }
    }
}

impl Clone for Value {
    fn clone(&self) -> (copy: Self)
        ensures
            copy == *self,
        decreases self,
    {
        match self {
            Value::Sum(v) => Value::Sum(Box::new((**v).clone())),
            Value::Max(v) => Value::Max(Box::new((**v).clone())),
            Value::Avg(v) => Value::Avg(Box::new((**v).clone())),
            Value::Coalesce(a, b) => Value::Coalesce(
                Box::new((**a).clone()),
                Box::new((**b).clone()),
            ),
            Value::Column(c) => Value::Column(c.clone()),
            Value::Param(n) => Value::Param(*n),
            Value::Integer(n) => Value::Integer(*n),
            Value::Double(t) => Value::Double(t.clone()),
            Value::String(t) => Value::String(t.clone()),
            Value::Count(v) => Value::Count(Box::new((**v).clone())),
            Value::As(v, alias) => Value::As(Box::new((**v).clone()), alias.clone()),
            Value::Add(a, b) => Value::Add(Box::new((**a).clone()), Box::new((**b).clone())),
            Value::Sub(a, b) => Value::Sub(Box::new((**a).clone()), Box::new((**b).clone())),
            Value::Mul(a, b) => Value::Mul(Box::new((**a).clone()), Box::new((**b).clone())),
            Value::Div(a, b) => Value::Div(Box::new((**a).clone()), Box::new((**b).clone())),
            Value::And(a, b) => Value::And(Box::new((**a).clone()), Box::new((**b).clone())),
            Value::Or(a, b) => Value::Or(Box::new((**a).clone()), Box::new((**b).clone())),
            Value::Eq(a, b) => Value::Eq(Box::new((**a).clone()), Box::new((**b).clone())),
            Value::Ne(a, b) => Value::Ne(Box::new((**a).clone()), Box::new((**b).clone())),
            Value::Ge(a, b) => Value::Ge(Box::new((**a).clone()), Box::new((**b).clone())),
            Value::Gt(a, b) => Value::Gt(Box::new((**a).clone()), Box::new((**b).clone())),
            Value::Le(a, b) => Value::Le(Box::new((**a).clone()), Box::new((**b).clone())),
            Value::Lt(a, b) => Value::Lt(Box::new((**a).clone()), Box::new((**b).clone())),
            Value::NotIn(a, b) => Value::NotIn(Box::new((**a).clone()), Box::new((**b).clone())),
            Value::In(a, b) => Value::In(Box::new((**a).clone()), Box::new((**b).clone())),
            Value::InlineQuery(q) => Value::InlineQuery(q.clone()),
            Value::IsNull(v) => Value::IsNull(Box::new((**v).clone())),
            Value::IsNotNull(v) => Value::IsNotNull(Box::new((**v).clone())),
            Value::BoolToInteger(v) => Value::BoolToInteger(Box::new((**v).clone())),
            Value::Random => Value::Random,
            Value::Now => Value::Now,
        }
    }
}

/// What can stand where an expression is expected.
pub trait IntoValue: Sized {
    /// The SQL text of the expression that `self` becomes.
    spec fn value_sql(&self) -> Seq<char>;

    /// Whether `value` is the expression that `self` becomes.
    spec fn becomes(&self, value: Value) -> bool;

    fn into_value(self) -> (value: Value)
        ensures
            value.sql() == self.value_sql(),
            self.becomes(value),
    ;
}

impl IntoValue for Column {
    open spec fn value_sql(&self) -> Seq<char> {
        self.sql()
    }

    /// A column becomes the expression that refers to it.
    open spec fn becomes(&self, value: Value) -> bool {
        value == Value::Column(*self)
    }

    fn into_value(self) -> (value: Value) {
        Value::Column(self)
    }
}

impl IntoValue for Value {
    open spec fn value_sql(&self) -> Seq<char> {
        self.sql()
    }

    /// An expression stays what it is.
    open spec fn becomes(&self, value: Value) -> bool {
        value == *self
    }

    fn into_value(self) -> (value: Value) {
        self
    }
}

impl IntoValue for i64 {
    open spec fn value_sql(&self) -> Seq<char> {
        int_decimal(*self as int)
    }

    /// An integer becomes an integer literal.
    open spec fn becomes(&self, value: Value) -> bool {
        value == Value::Integer(*self)
    }

    fn into_value(self) -> (value: Value) {
        Value::Integer(self)
    }
}

impl IntoValue for String {
    open spec fn value_sql(&self) -> Seq<char> {
        seq!['\''] + self@ + seq!['\'']
    }

    /// A text becomes a string literal.
    open spec fn becomes(&self, value: Value) -> bool {
        value == Value::String(*self)
    }

    fn into_value(self) -> (value: Value) {
        Value::String(self)
    }
}

impl IntoValue for &str {
    open spec fn value_sql(&self) -> Seq<char> {
        seq!['\''] + self@ + seq!['\'']
    }

    /// A text becomes a string literal of the same characters.
    open spec fn becomes(&self, value: Value) -> bool {
        value matches Value::String(text) && text@ == self@
    }

    fn into_value(self) -> (value: Value) {
        Value::String(self.to_owned())
    }
}

impl<T> IntoValue for T where T: IntoQuery {
    open spec fn value_sql(&self) -> Seq<char> {
        seq!['('] + self.query_sql() + seq![')']
    }

    /// A builder becomes the nested statement that it generates.
    open spec fn becomes(&self, value: Value) -> bool {
        value matches Value::InlineQuery(query) && query@ == self.query_sql()
    }

    fn into_value(self) -> (value: Value) {
        Value::InlineQuery(self.into_query())
    }
}

impl<T: IntoValue> core::ops::Add<T> for Value {
    type Output = Value;

    /// `(self+rhs)`.
    fn add(self, rhs: T) -> (result: Value)
        ensures
            result.sql() == wrapped_sql(self.sql(), "+"@, rhs.value_sql()),
            result matches Value::Add(left, right) && *left == self && rhs.becomes(*right),
    {
        Value::Add(Box::new(self), Box::new(rhs.into_value()))
    }
}

impl<T: IntoValue> vstd::std_specs::ops::AddSpecImpl<T> for Value {
    /// The operator builds a tree, which `add` states by its text.
    open spec fn obeys_add_spec() -> bool {
        false
    }

    open spec fn add_req(self, rhs: T) -> bool {
        true
    }

    open spec fn add_spec(self, rhs: T) -> Value {
        arbitrary()
    }
}

impl<T: IntoValue> core::ops::Sub<T> for Value {
    type Output = Value;

    /// `(self-rhs)`.
    fn sub(self, rhs: T) -> (result: Value)
        ensures
            result.sql() == wrapped_sql(self.sql(), "-"@, rhs.value_sql()),
            result matches Value::Sub(left, right) && *left == self && rhs.becomes(*right),
    {
        Value::Sub(Box::new(self), Box::new(rhs.into_value()))
    }
}

impl<T: IntoValue> vstd::std_specs::ops::SubSpecImpl<T> for Value {
    /// The operator builds a tree, which `sub` states by its text.
    open spec fn obeys_sub_spec() -> bool {
        false
    }

    open spec fn sub_req(self, rhs: T) -> bool {
        true
    }

    open spec fn sub_spec(self, rhs: T) -> Value {
        arbitrary()
    }
}

impl<T: IntoValue> core::ops::Mul<T> for Value {
    type Output = Value;

    /// `(self*rhs)`.
    fn mul(self, rhs: T) -> (result: Value)
        ensures
            result.sql() == wrapped_sql(self.sql(), "*"@, rhs.value_sql()),
            result matches Value::Mul(left, right) && *left == self && rhs.becomes(*right),
    {
        Value::Mul(Box::new(self), Box::new(rhs.into_value()))
    }
}

impl<T: IntoValue> vstd::std_specs::ops::MulSpecImpl<T> for Value {
    /// The operator builds a tree, which `mul` states by its text.
    open spec fn obeys_mul_spec() -> bool {
        false
    }

    open spec fn mul_req(self, rhs: T) -> bool {
        true
    }

    open spec fn mul_spec(self, rhs: T) -> Value {
        arbitrary()
    }
}

impl<T: IntoValue> core::ops::Div<T> for Value {
    type Output = Value;

    /// `(self/rhs)`.
    fn div(self, rhs: T) -> (result: Value)
        ensures
            result.sql() == wrapped_sql(self.sql(), "/"@, rhs.value_sql()),
            result matches Value::Div(left, right) && *left == self && rhs.becomes(*right),
    {
        Value::Div(Box::new(self), Box::new(rhs.into_value()))
    }
}

impl<T: IntoValue> vstd::std_specs::ops::DivSpecImpl<T> for Value {
    /// The operator builds a tree, which `div` states by its text.
    open spec fn obeys_div_spec() -> bool {
        false
    }

    open spec fn div_req(self, rhs: T) -> bool {
        true
    }

    open spec fn div_spec(self, rhs: T) -> Value {
        arbitrary()
    }
}

} // verus!
