//! Parentheses in generated text: what the generator adds is balanced, so a
//! text is well nested whenever the texts that the caller embeds in it are.

use super::clauses::{alias_sql, where_sql};
use super::delete::{delete_sql, DeleteView};
use super::insert::{insert_columns_sql, insert_source_sql, insert_sql, quoted_names, InsertView};
use super::join::{join_sql, JoinKind, JoinView};
use super::select::{bound_sql, order_by_sql, select_sql, with_item_sql, with_sql, SelectView};
use super::update::{update_sql, UpdateView};
use super::value::{bare_sql, call_sql, wrapped_sql};
use super::{Column, Value};
use crate::text::{
    digit_char,
    first_dot,
    int_decimal,
    joined,
    nat_decimal,
    prefixed,
    quoted,
    quoted_name,
};
use vstd::prelude::*;

verus! {

/// What a character does to the depth of nesting.
pub open spec fn step(c: char) -> int {
    if c == '(' {
        1
    } else if c == ')' {
        -1
    } else {
        0
    }
}

/// The depth of nesting at the end of `text`: the opening parentheses
/// less the closing ones.
pub open spec fn depth(text: Seq<char>) -> int
    decreases text.len(),
{
    if text.len() == 0 {
        0
    } else {
        depth(text.drop_last()) + step(text.last())
    }
}

/// Whether the parentheses of `text` are well nested: none closes what was
/// not opened, and none stays open.
pub open spec fn nested(text: Seq<char>) -> bool {
    &&& depth(text) == 0
    &&& forall|k: int| 0 <= k <= text.len() ==> depth(#[trigger] text.take(k)) >= 0
}

/// Whether `text` holds no parenthesis.
pub open spec fn plain(text: Seq<char>) -> bool {
    forall|i: int| 0 <= i < text.len() ==> step(#[trigger] text[i]) == 0
}

/// The depth at the end of two texts is the sum of their depths.
pub proof fn lemma_depth_concat(a: Seq<char>, b: Seq<char>)
    ensures
        depth(a + b) == depth(a) + depth(b),
    decreases b.len(),
{
    if b.len() == 0 {
        assert(a + b =~= a);
    } else {
        assert((a + b).drop_last() =~= a + b.drop_last());
        lemma_depth_concat(a, b.drop_last());
    }
}

/// A text without parentheses has depth zero.
pub proof fn lemma_plain_depth(text: Seq<char>)
    requires
        plain(text),
    ensures
        depth(text) == 0,
    decreases text.len(),
{
    if text.len() > 0 {
        assert(step(text[text.len() - 1]) == 0);
        assert forall|i: int| 0 <= i < text.drop_last().len() implies step(
            #[trigger] text.drop_last()[i],
        ) == 0 by {
            assert(text.drop_last()[i] == text[i]);
        }
        lemma_plain_depth(text.drop_last());
    }
}

/// A text without parentheses is well nested.
pub proof fn lemma_plain_nested(text: Seq<char>)
    requires
        plain(text),
    ensures
        nested(text),
{
    lemma_plain_depth(text);
    assert forall|k: int| 0 <= k <= text.len() implies depth(#[trigger] text.take(k)) >= 0 by {
        assert forall|i: int| 0 <= i < text.take(k).len() implies step(
            #[trigger] text.take(k)[i],
        ) == 0 by {
            assert(text.take(k)[i] == text[i]);
        }
        lemma_plain_depth(text.take(k));
    }
}

/// Two texts without parentheses make one.
pub proof fn lemma_plain_concat(a: Seq<char>, b: Seq<char>)
    requires
        plain(a),
        plain(b),
    ensures
        plain(a + b),
{
    assert forall|i: int| 0 <= i < (a + b).len() implies step(#[trigger] (a + b)[i]) == 0 by {
        if i < a.len() {
            assert((a + b)[i] == a[i]);
        } else {
            assert((a + b)[i] == b[i - a.len()]);
        }
    }
}

/// Two well nested texts, one after the other, are well nested.
pub proof fn lemma_nested_concat(a: Seq<char>, b: Seq<char>)
    requires
        nested(a),
        nested(b),
    ensures
        nested(a + b),
{
    lemma_depth_concat(a, b);
    assert forall|k: int| 0 <= k <= (a + b).len() implies depth(#[trigger] (a + b).take(k))
        >= 0 by {
        if k <= a.len() {
            assert((a + b).take(k) =~= a.take(k));
        } else {
            assert((a + b).take(k) =~= a + b.take(k - a.len()));
            lemma_depth_concat(a, b.take(k - a.len()));
        }
    }
}

/// A well nested text between parentheses is well nested.
pub proof fn lemma_nested_wrap(inner: Seq<char>)
    requires
        nested(inner),
    ensures
        nested(seq!['('] + inner + seq![')']),
{
    let open = seq!['('];
    let close = seq![')'];
    let whole = open + inner + close;
    assert(depth(Seq::<char>::empty()) == 0);
    assert(open.drop_last() =~= Seq::<char>::empty());
    assert(close.drop_last() =~= Seq::<char>::empty());
    assert(depth(open) == 1);
    assert(depth(close) == -1);
    lemma_depth_concat(open, inner);
    lemma_depth_concat(open + inner, close);
    assert forall|k: int| 0 <= k <= whole.len() implies depth(#[trigger] whole.take(k)) >= 0 by {
        if k == 0 {
            assert(whole.take(k) =~= Seq::<char>::empty());
        } else if k <= inner.len() + 1 {
            assert(whole.take(k) =~= open + inner.take(k - 1));
            lemma_depth_concat(open, inner.take(k - 1));
        } else {
            assert(whole.take(k) =~= whole);
        }
    }
}

/// The decimal digits of a number hold no parenthesis.
pub proof fn lemma_decimal_plain(n: nat)
    ensures
        plain(nat_decimal(n)),
    decreases n,
{
    if n >= 10 {
        lemma_decimal_plain(n / 10);
        let head = nat_decimal(n / 10);
        let last = seq![digit_char((n % 10) as int)];
        assert(plain(last));
        lemma_plain_concat(head, last);
        assert(head.push(digit_char((n % 10) as int)) =~= head + last);
    }
}

/// The decimal text of an integer is well nested.
pub proof fn lemma_integer_nested(n: int)
    ensures
        plain(int_decimal(n)),
        nested(int_decimal(n)),
{
    if n < 0 {
        lemma_decimal_plain((-n) as nat);
        assert(plain(seq!['-']));
        lemma_plain_concat(seq!['-'], nat_decimal((-n) as nat));
    } else {
        lemma_decimal_plain(n as nat);
    }
    lemma_plain_nested(int_decimal(n));
}

/// A name without parentheses is quoted without parentheses.
pub proof fn lemma_quoted_name_plain(name: Seq<char>)
    requires
        plain(name),
    ensures
        plain(quoted_name(name)),
        nested(quoted_name(name)),
    decreases name.len(),
{
    let tick = seq!['`'];
    assert(plain(tick));
    let cut = first_dot(name);
    if cut < 0 || cut >= name.len() {
        lemma_plain_concat(tick, name);
        lemma_plain_concat(tick + name, tick);
    } else {
        let head = name.take(cut);
        let tail = name.skip(cut + 1);
        assert forall|i: int| 0 <= i < head.len() implies step(#[trigger] head[i]) == 0 by {
            assert(head[i] == name[i]);
        }
        assert forall|i: int| 0 <= i < tail.len() implies step(#[trigger] tail[i]) == 0 by {
            assert(tail[i] == name[i + cut + 1]);
        }
        lemma_quoted_name_plain(tail);
        lemma_plain_concat(tick, head);
        lemma_plain_concat(tick + head, tick);
        assert(plain(seq!['.']));
        lemma_plain_concat(quoted(head), seq!['.']);
        lemma_plain_concat(quoted(head) + seq!['.'], quoted_name(tail));
    }
    lemma_plain_nested(quoted_name(name));
}

/// A call of a function whose name holds no parenthesis, on a well nested
/// argument, is well nested.
pub proof fn lemma_call_nested(name: Seq<char>, inner: Seq<char>)
    requires
        plain(name),
        nested(inner),
    ensures
        nested(call_sql(name, inner)),
{
    lemma_plain_nested(name);
    lemma_nested_wrap(inner);
    lemma_nested_concat(name, seq!['('] + inner + seq![')']);
    assert(call_sql(name, inner) =~= name + (seq!['('] + inner + seq![')']));
}

/// Two well nested operands around an operator without parentheses are
/// well nested.
pub proof fn lemma_bare_nested(a: Seq<char>, op: Seq<char>, b: Seq<char>)
    requires
        nested(a),
        plain(op),
        nested(b),
    ensures
        nested(bare_sql(a, op, b)),
{
    lemma_plain_nested(op);
    lemma_nested_concat(a, op);
    lemma_nested_concat(a + op, b);
}

/// An operation between parentheses is well nested where its operands are.
pub proof fn lemma_wrapped_nested(a: Seq<char>, op: Seq<char>, b: Seq<char>)
    requires
        nested(a),
        plain(op),
        nested(b),
    ensures
        nested(wrapped_sql(a, op, b)),
{
    lemma_bare_nested(a, op, b);
    lemma_nested_wrap(a + op + b);
    assert(wrapped_sql(a, op, b) =~= seq!['('] + (a + op + b) + seq![')']);
}

/// A well nested text before or after a text without parentheses is well
/// nested.
pub proof fn lemma_nested_beside_plain(a: Seq<char>, b: Seq<char>)
    requires
        nested(a) && plain(b) || plain(a) && nested(b),
    ensures
        nested(a + b),
{
    if plain(a) {
        lemma_plain_nested(a);
    }
    if plain(b) {
        lemma_plain_nested(b);
    }
    lemma_nested_concat(a, b);
}

impl Value {
    /// Whether every text that the tree embeds as it is given keeps the
    /// nesting intact: string and number literals, plain aliases and nested
    /// statements are well nested, and names hold no parenthesis.
    pub open spec fn embeds_nested(&self) -> bool
        decreases self,
    {
        match self {
            Value::Sum(v) | Value::Max(v) | Value::Avg(v) | Value::Count(v) | Value::IsNull(v)
            | Value::IsNotNull(v) | Value::BoolToInteger(v) => v.embeds_nested(),
            Value::Coalesce(a, b) | Value::Add(a, b) | Value::Sub(a, b) | Value::Mul(a, b)
            | Value::Div(a, b) | Value::And(a, b) | Value::Or(a, b) | Value::Eq(a, b) | Value::Ne(
                a,
                b,
            ) | Value::Ge(a, b) | Value::Gt(a, b) | Value::Le(a, b) | Value::Lt(a, b)
            | Value::NotIn(a, b) | Value::In(a, b) => a.embeds_nested() && b.embeds_nested(),
            Value::Column(c) => c.embeds_nested(),
            Value::Param(_) | Value::Integer(_) | Value::Random | Value::Now => true,
            Value::Double(t) | Value::String(t) => nested(t@),
            Value::As(v, alias) => v.embeds_nested() && nested(alias@),
            Value::InlineQuery(q) => nested(q@),
        }
    }
}

impl Column {
    /// Whether every text that the column embeds as it is given keeps the
    /// nesting intact: names and aliases hold no parenthesis.
    pub open spec fn embeds_nested(&self) -> bool
        decreases self,
    {
        match self {
            Column::All => true,
            Column::Name(name) => plain(name@),
            Column::Alias(name, alias) => plain(name@) && plain(alias@),
            Column::Value(value) => value.embeds_nested(),
            Column::ValueAlias(alias, value) => plain(alias@) && value.embeds_nested(),
        }
    }
}

/// The keywords that the generator writes hold no parenthesis.
proof fn lemma_keywords_plain()
    ensures
        plain("sum"@),
        plain("max"@),
        plain("avg"@),
        plain("count"@),
        plain("coalesce"@),
        plain(" as "@),
        plain("+"@),
        plain("-"@),
        plain("*"@),
        plain("/"@),
        plain(" and "@),
        plain(" or "@),
        plain("="@),
        plain("<>"@),
        plain(">="@),
        plain(">"@),
        plain("<="@),
        plain("<"@),
        plain(" not in "@),
        plain(" in "@),
        plain(" is null"@),
        plain(" is not null"@),
{
    reveal_strlit("sum");
    reveal_strlit("max");
    reveal_strlit("avg");
    reveal_strlit("count");
    reveal_strlit("coalesce");
    reveal_strlit(" as ");
    reveal_strlit("+");
    reveal_strlit("-");
    reveal_strlit("*");
    reveal_strlit("/");
    reveal_strlit(" and ");
    reveal_strlit(" or ");
    reveal_strlit("=");
    reveal_strlit("<>");
    reveal_strlit(">=");
    reveal_strlit(">");
    reveal_strlit("<=");
    reveal_strlit("<");
    reveal_strlit(" not in ");
    reveal_strlit(" in ");
    reveal_strlit(" is null");
    reveal_strlit(" is not null");
}

/// The fixed expressions that the generator writes are well nested.
proof fn lemma_fixed_nested()
    ensures
        nested("random()"@),
        nested("datetime('now')"@),
        forall|inner: Seq<char>|
            nested(inner) ==> nested(
                #[trigger] ("(case when "@ + inner + " then 1 else 0 end)"@),
            ),
{
    reveal_strlit("random()");
    reveal_strlit("random");
    reveal_strlit("datetime('now')");
    reveal_strlit("datetime");
    reveal_strlit("'now'");
    reveal_strlit("(case when ");
    reveal_strlit("case when ");
    reveal_strlit(" then 1 else 0 end)");
    reveal_strlit(" then 1 else 0 end");
    lemma_plain_nested(Seq::<char>::empty());
    lemma_call_nested("random"@, Seq::empty());
    assert("random()"@ =~= call_sql("random"@, Seq::empty()));
    lemma_plain_nested("'now'"@);
    lemma_call_nested("datetime"@, "'now'"@);
    assert("datetime('now')"@ =~= call_sql("datetime"@, "'now'"@));
    assert forall|inner: Seq<char>| nested(inner) implies nested(
        #[trigger] ("(case when "@ + inner + " then 1 else 0 end)"@),
    ) by {
        lemma_nested_beside_plain("case when "@, inner);
        lemma_nested_beside_plain("case when "@ + inner, " then 1 else 0 end"@);
        lemma_nested_wrap("case when "@ + inner + " then 1 else 0 end"@);
        assert("(case when "@ + inner + " then 1 else 0 end)"@ =~= seq!['('] + ("case when "@
            + inner + " then 1 else 0 end"@) + seq![')']);
    }
}

/// The text of an expression tree is well nested whenever what the tree
/// embeds is: the parentheses that the generator adds are balanced.
pub proof fn lemma_value_nested(value: Value)
    requires
        value.embeds_nested(),
    ensures
        nested(value.sql()),
    decreases value,
{
    lemma_keywords_plain();
    lemma_fixed_nested();
    match value {
        Value::Sum(v) => {
            lemma_value_nested(*v);
            lemma_call_nested("sum"@, v.sql());
        },
        Value::Max(v) => {
            lemma_value_nested(*v);
            lemma_call_nested("max"@, v.sql());
        },
        Value::Avg(v) => {
            lemma_value_nested(*v);
            lemma_call_nested("avg"@, v.sql());
        },
        Value::Count(v) => {
            lemma_value_nested(*v);
            lemma_call_nested("count"@, v.sql());
        },
        Value::Coalesce(a, b) => {
            lemma_value_nested(*a);
            lemma_value_nested(*b);
            assert(plain(seq![',']));
            lemma_bare_nested(a.sql(), seq![','], b.sql());
            lemma_call_nested("coalesce"@, a.sql() + seq![','] + b.sql());
        },
        Value::Column(c) => {
            lemma_column_nested(c);
        },
        Value::Param(n) => {
            lemma_integer_nested(n as int);
            assert(plain(seq!['?']));
            lemma_plain_concat(seq!['?'], int_decimal(n as int));
            lemma_plain_nested(seq!['?'] + int_decimal(n as int));
        },
        Value::Integer(n) => {
            lemma_integer_nested(n as int);
        },
        Value::Double(t) => {},
        Value::String(t) => {
            assert(plain(seq!['\'']));
            lemma_nested_beside_plain(seq!['\''], t@);
            lemma_nested_beside_plain(seq!['\''] + t@, seq!['\'']);
        },
        Value::As(v, alias) => {
            lemma_value_nested(*v);
            assert(plain(seq!['`']));
            lemma_nested_beside_plain(v.sql(), " as "@);
            lemma_nested_beside_plain(v.sql() + " as "@, seq!['`']);
            lemma_nested_concat(v.sql() + " as "@ + seq!['`'], alias@);
            lemma_nested_beside_plain(v.sql() + " as "@ + seq!['`'] + alias@, seq!['`']);
        },
        Value::Add(a, b) => {
            lemma_value_nested(*a);
            lemma_value_nested(*b);
            lemma_wrapped_nested(a.sql(), "+"@, b.sql());
        },
        Value::Sub(a, b) => {
            lemma_value_nested(*a);
            lemma_value_nested(*b);
            lemma_wrapped_nested(a.sql(), "-"@, b.sql());
        },
        Value::Mul(a, b) => {
            lemma_value_nested(*a);
            lemma_value_nested(*b);
            lemma_wrapped_nested(a.sql(), "*"@, b.sql());
        },
        Value::Div(a, b) => {
            lemma_value_nested(*a);
            lemma_value_nested(*b);
            lemma_wrapped_nested(a.sql(), "/"@, b.sql());
        },
        Value::And(a, b) => {
            lemma_value_nested(*a);
            lemma_value_nested(*b);
            lemma_wrapped_nested(a.sql(), " and "@, b.sql());
        },
        Value::Or(a, b) => {
            lemma_value_nested(*a);
            lemma_value_nested(*b);
            lemma_wrapped_nested(a.sql(), " or "@, b.sql());
        },
        Value::Eq(a, b) => {
            lemma_value_nested(*a);
            lemma_value_nested(*b);
            lemma_bare_nested(a.sql(), "="@, b.sql());
        },
        Value::Ne(a, b) => {
            lemma_value_nested(*a);
            lemma_value_nested(*b);
            lemma_bare_nested(a.sql(), "<>"@, b.sql());
        },
        Value::Ge(a, b) => {
            lemma_value_nested(*a);
            lemma_value_nested(*b);
            lemma_bare_nested(a.sql(), ">="@, b.sql());
        },
        Value::Gt(a, b) => {
            lemma_value_nested(*a);
            lemma_value_nested(*b);
            lemma_bare_nested(a.sql(), ">"@, b.sql());
        },
        Value::Le(a, b) => {
            lemma_value_nested(*a);
            lemma_value_nested(*b);
            lemma_bare_nested(a.sql(), "<="@, b.sql());
        },
        Value::Lt(a, b) => {
            lemma_value_nested(*a);
            lemma_value_nested(*b);
            lemma_bare_nested(a.sql(), "<"@, b.sql());
        },
        Value::NotIn(a, b) => {
            lemma_value_nested(*a);
            lemma_value_nested(*b);
            lemma_bare_nested(a.sql(), " not in "@, b.sql());
        },
        Value::In(a, b) => {
            lemma_value_nested(*a);
            lemma_value_nested(*b);
            lemma_bare_nested(a.sql(), " in "@, b.sql());
        },
        Value::InlineQuery(q) => {
            lemma_nested_wrap(q@);
        },
        Value::IsNull(v) => {
            lemma_value_nested(*v);
            lemma_nested_beside_plain(v.sql(), " is null"@);
        },
        Value::IsNotNull(v) => {
            lemma_value_nested(*v);
            lemma_nested_beside_plain(v.sql(), " is not null"@);
        },
        Value::BoolToInteger(v) => {
            lemma_value_nested(*v);
        },
        Value::Random => {},
        Value::Now => {},
    }
}

/// The text of a column is well nested whenever what the column embeds is.
pub proof fn lemma_column_nested(column: Column)
    requires
        column.embeds_nested(),
    ensures
        nested(column.sql()),
    decreases column,
{
    lemma_keywords_plain();
    match column {
        Column::All => {
            assert(plain(seq!['*']));
            lemma_plain_nested(seq!['*']);
        },
        Column::Name(name) => {
            lemma_quoted_name_plain(name@);
        },
        Column::Alias(name, alias) => {
            lemma_quoted_name_plain(name@);
            lemma_quoted_name_plain(alias@);
            lemma_bare_nested(quoted_name(name@), " as "@, quoted_name(alias@));
        },
        Column::Value(value) => {
            lemma_value_nested(*value);
        },
        Column::ValueAlias(alias, value) => {
            lemma_value_nested(*value);
            lemma_quoted_name_plain(alias@);
            lemma_bare_nested(value.sql(), " as "@, quoted_name(alias@));
        },
    }
}

/// Whether each of the texts is well nested.
pub open spec fn all_nested(parts: Seq<Seq<char>>) -> bool {
    forall|i: int| 0 <= i < parts.len() ==> nested(#[trigger] parts[i])
}

/// Whether the text, if there is one, is well nested.
pub open spec fn option_nested(text: Option<Seq<char>>) -> bool {
    match text {
        Some(t) => nested(t),
        None => true,
    }
}

/// Well nested parts joined by a separator without parentheses are well
/// nested.
pub proof fn lemma_joined_nested(parts: Seq<Seq<char>>, separator: Seq<char>)
    requires
        all_nested(parts),
        plain(separator),
    ensures
        nested(joined(parts, separator)),
    decreases parts.len(),
{
    if parts.len() == 0 {
        lemma_plain_nested(Seq::<char>::empty());
    } else if parts.len() == 1 {
        assert(nested(parts[0]));
    } else {
        assert forall|i: int| 0 <= i < parts.drop_last().len() implies nested(
            #[trigger] parts.drop_last()[i],
        ) by {
            assert(parts.drop_last()[i] == parts[i]);
        }
        lemma_joined_nested(parts.drop_last(), separator);
        assert(nested(parts[parts.len() - 1]));
        lemma_bare_nested(joined(parts.drop_last(), separator), separator, parts.last());
    }
}

/// Well nested parts, each after a prefix without parentheses, are well
/// nested.
pub proof fn lemma_prefixed_nested(parts: Seq<Seq<char>>, prefix: Seq<char>)
    requires
        all_nested(parts),
        plain(prefix),
    ensures
        nested(prefixed(parts, prefix)),
    decreases parts.len(),
{
    if parts.len() == 0 {
        lemma_plain_nested(Seq::<char>::empty());
    } else {
        assert forall|i: int| 0 <= i < parts.drop_last().len() implies nested(
            #[trigger] parts.drop_last()[i],
        ) by {
            assert(parts.drop_last()[i] == parts[i]);
        }
        lemma_prefixed_nested(parts.drop_last(), prefix);
        assert(nested(parts[parts.len() - 1]));
        lemma_bare_nested(prefixed(parts.drop_last(), prefix), prefix, parts.last());
    }
}

/// A well nested text between backticks is well nested.
pub proof fn lemma_quoted_nested(text: Seq<char>)
    requires
        nested(text),
    ensures
        nested(quoted(text)),
{
    assert(plain(seq!['`']));
    lemma_nested_beside_plain(seq!['`'], text);
    lemma_nested_beside_plain(seq!['`'] + text, seq!['`']);
}

/// The words that statements are made of hold no parenthesis.
proof fn lemma_clause_words_plain()
    ensures
        plain(" where "@),
        plain(" and "@),
        plain(" as "@),
        plain(" on "@),
        plain("left join "@),
        plain("inner join "@),
        plain("select "@),
        plain(" from "@),
        plain(" "@),
        plain(" order by "@),
        plain(" limit "@),
        plain(" offset "@),
        plain("with "@),
        plain(","@),
        plain("delete from "@),
        plain("update "@),
        plain(" set "@),
        plain("insert "@),
        plain("or ignore "@),
        plain("into "@),
        plain("values "@),
{
    reveal_strlit(" where ");
    reveal_strlit(" and ");
    reveal_strlit(" as ");
    reveal_strlit(" on ");
    reveal_strlit("left join ");
    reveal_strlit("inner join ");
    reveal_strlit("select ");
    reveal_strlit(" from ");
    reveal_strlit(" ");
    reveal_strlit(" order by ");
    reveal_strlit(" limit ");
    reveal_strlit(" offset ");
    reveal_strlit("with ");
    reveal_strlit(",");
    reveal_strlit("delete from ");
    reveal_strlit("update ");
    reveal_strlit(" set ");
    reveal_strlit("insert ");
    reveal_strlit("or ignore ");
    reveal_strlit("into ");
    reveal_strlit("values ");
}

/// The `where` clause of well nested conditions is well nested.
pub proof fn lemma_where_nested(clauses: Seq<Seq<char>>)
    requires
        all_nested(clauses),
    ensures
        nested(where_sql(clauses)),
{
    lemma_clause_words_plain();
    lemma_joined_nested(clauses, " and "@);
    if clauses.len() == 0 {
        lemma_plain_nested(Seq::<char>::empty());
    } else {
        lemma_nested_beside_plain(" where "@, joined(clauses, " and "@));
    }
}

/// The clause that names a well nested alias is well nested.
pub proof fn lemma_alias_nested(alias: Option<Seq<char>>)
    requires
        option_nested(alias),
    ensures
        nested(alias_sql(alias)),
{
    lemma_clause_words_plain();
    match alias {
        Some(name) => {
            lemma_quoted_nested(name);
            lemma_nested_beside_plain(" as "@, quoted(name));
        },
        None => {
            lemma_plain_nested(Seq::<char>::empty());
        },
    }
}

/// A well nested expression after a keyword is well nested.
pub proof fn lemma_bound_nested(keyword: Seq<char>, value: Option<Seq<char>>)
    requires
        plain(keyword),
        option_nested(value),
    ensures
        nested(bound_sql(keyword, value)),
{
    match value {
        Some(text) => {
            lemma_nested_beside_plain(keyword, text);
        },
        None => {
            lemma_plain_nested(Seq::<char>::empty());
        },
    }
}

/// A common table expression with a well nested name and statement is
/// well nested.
pub proof fn lemma_with_item_nested(name: Seq<char>, statement: Seq<char>)
    requires
        nested(name),
        nested(statement),
    ensures
        nested(with_item_sql(name, statement)),
{
    reveal_strlit(" as (");
    reveal_strlit(" as ");
    reveal_strlit(")");
    lemma_clause_words_plain();
    lemma_quoted_nested(name);
    lemma_nested_beside_plain(quoted(name), " as "@);
    lemma_nested_wrap(statement);
    lemma_nested_concat(quoted(name) + " as "@, seq!['('] + statement + seq![')']);
    assert(with_item_sql(name, statement) =~= (quoted(name) + " as "@) + (seq!['('] + statement
        + seq![')']));
}

impl JoinView {
    /// Whether the texts that the clause is made of are well nested.
    pub open spec fn embeds_nested(self) -> bool {
        &&& nested(self.table)
        &&& option_nested(self.alias)
        &&& all_nested(self.on)
    }
}

/// A `join` clause is well nested whenever its parts are.
pub proof fn lemma_join_nested(v: JoinView)
    requires
        v.embeds_nested(),
    ensures
        nested(join_sql(v)),
{
    lemma_clause_words_plain();
    let kind = match v.kind {
        JoinKind::Left => "left join "@,
        JoinKind::Inner => "inner join "@,
    };
    lemma_quoted_nested(v.table);
    lemma_alias_nested(v.alias);
    lemma_joined_nested(v.on, " and "@);
    lemma_nested_beside_plain(kind, quoted(v.table));
    lemma_nested_concat(kind + quoted(v.table), alias_sql(v.alias));
    lemma_nested_beside_plain(kind + quoted(v.table) + alias_sql(v.alias), " on "@);
    lemma_nested_concat(
        kind + quoted(v.table) + alias_sql(v.alias) + " on "@,
        joined(v.on, " and "@),
    );
}

impl SelectView {
    /// Whether the texts that the statement is made of are well nested.
    pub open spec fn embeds_nested(self) -> bool {
        &&& all_nested(self.with)
        &&& all_nested(self.columns)
        &&& nested(self.from)
        &&& option_nested(self.from_as)
        &&& all_nested(self.joins)
        &&& all_nested(self.where_clauses)
        &&& all_nested(self.order_by)
        &&& option_nested(self.limit)
        &&& option_nested(self.offset)
    }
}

/// A `select` statement is well nested whenever its parts are.
pub proof fn lemma_select_nested(v: SelectView)
    requires
        v.embeds_nested(),
    ensures
        nested(select_sql(v)),
{
    lemma_clause_words_plain();
    assert(plain(seq![',']));
    lemma_joined_nested(v.with, ","@);
    if v.with.len() == 0 {
        lemma_plain_nested(Seq::<char>::empty());
    } else {
        lemma_nested_beside_plain("with "@, joined(v.with, ","@));
        lemma_nested_beside_plain("with "@ + joined(v.with, ","@), " "@);
    }
    let a = with_sql(v.with);
    lemma_nested_beside_plain(a, "select "@);
    let b = a + "select "@;
    lemma_joined_nested(v.columns, seq![',']);
    lemma_nested_concat(b, joined(v.columns, seq![',']));
    let c = b + joined(v.columns, seq![',']);
    lemma_nested_beside_plain(c, " from "@);
    let d = c + " from "@;
    lemma_quoted_nested(v.from);
    lemma_nested_concat(d, quoted(v.from));
    let e = d + quoted(v.from);
    lemma_alias_nested(v.from_as);
    lemma_nested_concat(e, alias_sql(v.from_as));
    let f = e + alias_sql(v.from_as);
    lemma_prefixed_nested(v.joins, " "@);
    lemma_nested_concat(f, prefixed(v.joins, " "@));
    let g = f + prefixed(v.joins, " "@);
    lemma_where_nested(v.where_clauses);
    lemma_nested_concat(g, where_sql(v.where_clauses));
    let h = g + where_sql(v.where_clauses);
    lemma_joined_nested(v.order_by, ","@);
    if v.order_by.len() == 0 {
        lemma_plain_nested(Seq::<char>::empty());
    } else {
        lemma_nested_beside_plain(" order by "@, joined(v.order_by, ","@));
    }
    lemma_nested_concat(h, order_by_sql(v.order_by));
    let i = h + order_by_sql(v.order_by);
    lemma_bound_nested(" limit "@, v.limit);
    lemma_nested_concat(i, bound_sql(" limit "@, v.limit));
    let j = i + bound_sql(" limit "@, v.limit);
    lemma_bound_nested(" offset "@, v.offset);
    lemma_nested_concat(j, bound_sql(" offset "@, v.offset));
}

impl DeleteView {
    /// Whether the texts that the statement is made of are well nested.
    pub open spec fn embeds_nested(self) -> bool {
        &&& nested(self.from)
        &&& all_nested(self.where_clauses)
    }
}

/// A `delete` statement is well nested whenever its parts are.
pub proof fn lemma_delete_nested(v: DeleteView)
    requires
        v.embeds_nested(),
    ensures
        nested(delete_sql(v)),
{
    lemma_clause_words_plain();
    lemma_quoted_nested(v.from);
    lemma_where_nested(v.where_clauses);
    lemma_nested_beside_plain("delete from "@, quoted(v.from));
    lemma_nested_concat("delete from "@ + quoted(v.from), where_sql(v.where_clauses));
}

impl UpdateView {
    /// Whether the texts that the statement is made of are well nested.
    pub open spec fn embeds_nested(self) -> bool {
        &&& nested(self.table)
        &&& all_nested(self.set_clauses)
        &&& all_nested(self.where_clauses)
    }
}

/// An `update` statement is well nested whenever its parts are.
pub proof fn lemma_update_nested(v: UpdateView)
    requires
        v.embeds_nested(),
    ensures
        nested(update_sql(v)),
{
    lemma_clause_words_plain();
    lemma_quoted_nested(v.table);
    lemma_joined_nested(v.set_clauses, ","@);
    lemma_where_nested(v.where_clauses);
    lemma_nested_beside_plain("update "@, quoted(v.table));
    let a = "update "@ + quoted(v.table);
    lemma_nested_beside_plain(a, " set "@);
    lemma_nested_concat(a + " set "@, joined(v.set_clauses, ","@));
    lemma_nested_concat(a + " set "@ + joined(v.set_clauses, ","@), where_sql(v.where_clauses));
}

/// Whether each of the names holds no parenthesis.
pub open spec fn all_plain(names: Seq<Seq<char>>) -> bool {
    forall|i: int| 0 <= i < names.len() ==> plain(#[trigger] names[i])
}

impl InsertView {
    /// Whether the texts that the statement is made of are well nested; the
    /// names of the columns hold no parenthesis.
    pub open spec fn embeds_nested(self) -> bool {
        &&& nested(self.table)
        &&& all_plain(self.columns)
        &&& all_nested(self.values)
        &&& option_nested(self.select)
    }
}

/// An `insert` statement is well nested whenever its parts are.
pub proof fn lemma_insert_nested(v: InsertView)
    requires
        v.embeds_nested(),
    ensures
        nested(insert_sql(v)),
{
    lemma_clause_words_plain();
    reveal_strlit(" (");
    reveal_strlit(") ");
    reveal_strlit("values (");
    reveal_strlit("values ");
    reveal_strlit(")");
    reveal_strlit(" ");
    let modifier = if v.ignore {
        "or ignore "@
    } else {
        Seq::<char>::empty()
    };
    assert(plain(modifier));
    lemma_plain_concat("insert "@, modifier);
    lemma_plain_concat("insert "@ + modifier, "into "@);
    lemma_quoted_nested(v.table);
    lemma_nested_beside_plain("insert "@ + modifier + "into "@, quoted(v.table));
    let head = "insert "@ + modifier + "into "@ + quoted(v.table);
    // The column list.
    let names = quoted_names(v.columns);
    assert forall|i: int| 0 <= i < names.len() implies nested(#[trigger] names[i]) by {
        assert(plain(v.columns[i]));
        lemma_quoted_name_plain(v.columns[i]);
    }
    lemma_joined_nested(names, ","@);
    if v.columns.len() == 0 {
        lemma_plain_nested(Seq::<char>::empty());
    } else {
        lemma_nested_wrap(joined(names, ","@));
        let wrapped = seq!['('] + joined(names, ","@) + seq![')'];
        lemma_nested_beside_plain(" "@, wrapped);
        lemma_nested_beside_plain(" "@ + wrapped, " "@);
        assert(insert_columns_sql(v.columns) =~= " "@ + wrapped + " "@);
    }
    lemma_nested_concat(head, insert_columns_sql(v.columns));
    // The source of the rows.
    match v.select {
        Some(text) => {},
        None => {
            if v.values.len() == 0 {
                lemma_plain_nested(Seq::<char>::empty());
            } else {
                lemma_joined_nested(v.values, ","@);
                lemma_nested_wrap(joined(v.values, ","@));
                let wrapped = seq!['('] + joined(v.values, ","@) + seq![')'];
                lemma_nested_beside_plain("values "@, wrapped);
                assert(insert_source_sql(v.values, v.select) =~= "values "@ + wrapped);
            }
        },
    }
    lemma_nested_concat(
        head + insert_columns_sql(v.columns),
        insert_source_sql(v.values, v.select),
    );
}

} // verus!
