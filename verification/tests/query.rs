use kodama::query;
use kodama::query::{
    alias, and, and3, avg, between, bool_to_integer, coalesce, count, eq, ge, gt, is_in,
    is_not_null, is_null, le, lt, max, ne, not_in, now, or, param, sum, Column, Columns, Delete,
    Insert, IntoColumns, IntoQuery, IntoValue, Join, JoinKind, Query, Select, Update, Value,
};

fn text_of(value: Value) -> String {
    let mut buffer = String::new();
    value.generate(&mut buffer);
    buffer
}

fn column_text(column: Column) -> String {
    let mut buffer = String::new();
    column.generate(&mut buffer);
    buffer
}

#[test]
fn test() {
    let query = Query::select(coalesce(sum(query::column("amount")), 0))
        .from("Journal")
        .condition(and3(
            eq(query::column("account_id"), param(1)),
            ge(query::column("date"), param(2)),
            lt(query::column("date"), param(3)),
        ));

    assert_eq!(query.into_query().as_string(), "select coalesce(sum(`amount`),0) from `Journal` where (`account_id`=?1 and (`date`>=?2 and `date`<?3))");
}

#[test]
fn select_round_trip() {
    let query = Select::columns(query::column("amount"))
        .from("t")
        .condition(eq(query::column("id"), param(1)))
        .into_query();
    assert_eq!(query.as_string(), "select `amount` from `t` where `id`=?1");
}

#[test]
fn between_includes_the_lower_bound_and_excludes_the_upper() {
    assert_eq!(
        text_of(between(query::column("a"), query::column("b"), query::column("c"))),
        "(`a`>=`b` and `a`<`c`)"
    );
    assert_eq!(
        text_of(between(query::add(query::column("a"), 1), 0, 10)),
        "((`a`+1)>=0 and (`a`+1)<10)"
    );
}

#[test]
fn a_dotted_name_is_quoted_part_by_part() {
    assert_eq!(column_text(query::column("t.col")), "`t`.`col`");
    assert_eq!(column_text(query::column("a.b.c")), "`a`.`b`.`c`");
    assert_eq!(column_text(query::column("plain")), "`plain`");
}

#[test]
fn names_with_empty_parts_keep_their_dots() {
    assert_eq!(column_text(query::column("")), "``");
    assert_eq!(column_text(query::column(".")), "``.``");
    assert_eq!(column_text(query::column("a.")), "`a`.``");
    assert_eq!(column_text(query::column(".a")), "``.`a`");
    assert_eq!(column_text(query::column("a..b")), "`a`.``.`b`");
    assert_eq!(column_text(query::column("näme.ß")), "`näme`.`ß`");
}

#[test]
fn generating_twice_gives_the_same_text() {
    let tree = and(
        eq(query::column("t.a"), param(1)),
        or(is_null(query::column("b")), gt(query::column("c"), -5)),
    );
    let mut first = String::new();
    tree.generate(&mut first);
    let mut second = String::from("prefix ");
    tree.generate(&mut second);
    assert_eq!(first, "(`t`.`a`=?1 and (`b` is null or `c`>-5))");
    assert_eq!(second, format!("prefix {}", first));
    assert_eq!(first.as_bytes(), &second.as_bytes()[7..]);
    assert_eq!(text_of(tree.clone()), first);
}

#[test]
fn aggregates_wrap_their_argument() {
    assert_eq!(text_of(sum(query::column("x"))), "sum(`x`)");
    assert_eq!(text_of(max(query::column("x"))), "max(`x`)");
    assert_eq!(text_of(avg(query::column("x"))), "avg(`x`)");
    assert_eq!(text_of(count(Column::All)), "count(*)");
    assert_eq!(text_of(coalesce(query::column("x"), "none")), "coalesce(`x`,'none')");
}

#[test]
fn literals_are_written_as_they_are() {
    assert_eq!(text_of(Value::Integer(0)), "0");
    assert_eq!(text_of(Value::Integer(7)), "7");
    assert_eq!(text_of(Value::Integer(10)), "10");
    assert_eq!(text_of(Value::Integer(-42)), "-42");
    assert_eq!(text_of(Value::Integer(1234567890123)), "1234567890123");
    assert_eq!(text_of(Value::Integer(i64::MAX)), "9223372036854775807");
    assert_eq!(text_of(Value::Integer(i64::MIN)), "-9223372036854775808");
    assert_eq!(text_of(5i64.into_value()), "5");
    assert_eq!(text_of(Value::Double("1.5".to_string())), "1.5");
    assert_eq!(text_of("text".into_value()), "'text'");
    assert_eq!(text_of(String::from("owned").into_value()), "'owned'");
    assert_eq!(text_of(Value::String("it's".to_string())), "'it's'");
    assert_eq!(text_of(Value::String(String::new())), "''");
}

#[test]
fn parameters_are_numbered_placeholders() {
    assert_eq!(text_of(param(1)), "?1");
    assert_eq!(text_of(param(12)), "?12");
    assert_eq!(text_of(Value::Param(0)), "?0");
    assert_eq!(text_of(Value::Param(-3)), "?-3");
}

#[test]
fn arithmetic_and_logic_are_parenthesized() {
    let a = || query::column("a");
    let b = || query::column("b");
    assert_eq!(text_of(query::add(a(), b())), "(`a`+`b`)");
    assert_eq!(text_of(Value::Sub(Box::new(a().into_value()), Box::new(b().into_value()))), "(`a`-`b`)");
    assert_eq!(text_of(Value::Mul(Box::new(a().into_value()), Box::new(b().into_value()))), "(`a`*`b`)");
    assert_eq!(text_of(Value::Div(Box::new(a().into_value()), Box::new(b().into_value()))), "(`a`/`b`)");
    assert_eq!(text_of(and(a(), b())), "(`a` and `b`)");
    assert_eq!(text_of(or(a(), b())), "(`a` or `b`)");
    assert_eq!(text_of(and3(a(), b(), 1)), "(`a` and (`b` and 1))");
}

#[test]
fn operators_build_arithmetic() {
    assert_eq!(text_of(query::column("a") + 1), "(`a`+1)");
    assert_eq!(text_of(query::column("a") - query::column("b")), "(`a`-`b`)");
    assert_eq!(text_of(query::column("a") * 2), "(`a`*2)");
    assert_eq!(text_of(query::column("a") / 4), "(`a`/4)");
    assert_eq!(text_of((param(1) + 2) * 3), "((?1+2)*3)");
    assert_eq!(text_of(param(1) - 2), "(?1-2)");
    assert_eq!(text_of(param(8) / param(2)), "(?8/?2)");
}

#[test]
fn comparisons_add_no_parentheses() {
    let a = || query::column("a");
    assert_eq!(text_of(eq(a(), 1)), "`a`=1");
    assert_eq!(text_of(ne(a(), 1)), "`a`<>1");
    assert_eq!(text_of(ge(a(), 1)), "`a`>=1");
    assert_eq!(text_of(gt(a(), 1)), "`a`>1");
    assert_eq!(text_of(le(a(), 1)), "`a`<=1");
    assert_eq!(text_of(lt(a(), 1)), "`a`<1");
    assert_eq!(text_of(eq(eq(a(), 1), 2)), "`a`=1=2");
}

#[test]
fn membership_takes_a_nested_statement() {
    let inner = || Select::columns(query::column("id")).from("u");
    assert_eq!(text_of(is_in(query::column("a"), inner())), "`a` in (select `id` from `u`)");
    assert_eq!(
        text_of(not_in(query::column("a"), inner())),
        "`a` not in (select `id` from `u`)"
    );
    assert_eq!(
        text_of(Value::InlineQuery(inner().into_query())),
        "(select `id` from `u`)"
    );
    assert_eq!(
        text_of(Delete::from("t").into_value()),
        "(delete from `t`)"
    );
}

#[test]
fn tests_and_conversions_follow_their_argument() {
    assert_eq!(text_of(is_null(query::column("a"))), "`a` is null");
    assert_eq!(text_of(is_not_null(query::column("a"))), "`a` is not null");
    assert_eq!(
        text_of(bool_to_integer(gt(query::column("a"), 0))),
        "(case when `a`>0 then 1 else 0 end)"
    );
    assert_eq!(text_of(now()), "datetime('now')");
    assert_eq!(text_of(Value::Random), "random()");
    assert_eq!(
        text_of(Value::As(Box::new(param(1)), "t.x".to_string())),
        "?1 as `t.x`"
    );
}

#[test]
fn columns_have_five_forms() {
    assert_eq!(column_text(Column::All), "*");
    assert_eq!(column_text(Column::Name("a".to_string())), "`a`");
    assert_eq!(
        column_text(Column::Alias("t.a".to_string(), "x.y".to_string())),
        "`t`.`a` as `x`.`y`"
    );
    assert_eq!(column_text(Column::Value(Box::new(param(2)))), "?2");
    assert_eq!(column_text(alias(sum(query::column("a")), "total")), "sum(`a`) as `total`");
    assert_eq!(column_text(Column::All.clone()), "*");
    let mut buffer = String::from("x");
    Column::generate_name(&mut buffer, "a.b");
    assert_eq!(buffer, "x`a`.`b`");
}

#[test]
fn column_lists_are_separated_by_commas() {
    let list = Columns::list()
        .all()
        .column("t.a")
        .alias("b", "c")
        .count_all()
        .value(param(1))
        .value_as("d", 5);
    assert_eq!(
        Select::columns(list).from("t").into_query().as_string(),
        "select *,`t`.`a`,`b` as `c`,count(*),?1,5 as `d` from `t`"
    );
    let mut list = Columns::list();
    list.push(Column::All);
    let mut buffer = String::new();
    list.generate(&mut buffer);
    assert_eq!(buffer, "*");
    let mut buffer = String::new();
    Columns::list().into_columns().generate(&mut buffer);
    assert_eq!(buffer, "");
    assert_eq!(
        Select::columns(param(1)).from("t").into_query().as_string(),
        "select ?1 from `t`"
    );
}

#[test]
fn select_writes_its_clauses_in_order() {
    let query = Select::from_as("orders", "o")
        .with("recent", Select::from("orders").all_columns().limit(10))
        .with("big", Select::from("orders").column("id"))
        .column("o.id")
        .column_as("o.total", "t")
        .column_value(count(Column::All))
        .all_columns()
        .join(Join::left("users").on_match("users.id", "o.user_id"))
        .join(Join::inner_as("items", "i").on_column("i.order_id", param(1)).on(gt(query::column("i.qty"), 0)))
        .condition(eq(query::column("o.state"), "open"))
        .where_column("o.kind", param(2))
        .order_by_desc(query::column("o.total"))
        .order_by_asc(query::column("o.id"))
        .order_by_random()
        .limit(5)
        .offset(param(3))
        .into_query();
    assert_eq!(
        query.as_string(),
        "with `recent` as (select * from `orders` limit 10),`big` as (select `id` from `orders`) \
         select `o`.`id`,`o`.`total` as `t`,count(*),* from `orders` as `o` \
         left join `users` on `users`.`id`=`o`.`user_id` \
         inner join `items` as `i` on `i`.`order_id`=?1 and `i`.`qty`>0 \
         where `o`.`state`='open' and `o`.`kind`=?2 \
         order by `o`.`total` desc,`o`.`id` asc,random() asc \
         limit 5 offset ?3"
    );
}

#[test]
fn select_without_optional_clauses_is_bare() {
    assert_eq!(Select::from("t").into_query().as_string(), "select  from `t`");
    assert_eq!(Query::select_from("t").all_columns().into_query().as_string(), "select * from `t`");
    assert_eq!(
        Select::columns(Column::All).from_as("t.x", "a.b").into_query().as_string(),
        "select * from `t.x` as `a.b`"
    );
    assert_eq!(
        Select::from("t").limit(1).limit(2).offset(3).offset(4).column("a").into_query().as_string(),
        "select `a` from `t` limit 2 offset 4"
    );
}

#[test]
fn joins_have_a_kind_a_table_and_conditions() {
    let text = |join: Join| {
        let mut buffer = String::new();
        join.generate(&mut buffer);
        buffer
    };
    assert_eq!(text(Join::left("t")), "left join `t` on ");
    assert_eq!(text(Join::inner("t")), "inner join `t` on ");
    assert_eq!(text(Join::left_as("t", "x")), "left join `t` as `x` on ");
    assert_eq!(
        text(Join::inner("t").alias("a").alias("b").on(eq(query::column("b.id"), 1)).on_match("b.k", "c.k")),
        "inner join `t` as `b` on `b`.`id`=1 and `b`.`k`=`c`.`k`"
    );
    assert!(matches!(JoinKind::Left, JoinKind::Left));
    assert_ne!(JoinKind::Left, JoinKind::Inner);
}

#[test]
fn insert_takes_values_or_a_select() {
    assert_eq!(
        Insert::table("t").column("a", param(1)).column("b.c", "x").into_query().as_string(),
        "insert into `t` (`a`,`b`.`c`) values (?1,'x')"
    );
    assert_eq!(
        Query::insert_into("t").or_ignore().column("a", 1).into_query().as_string(),
        "insert or ignore into `t` (`a`) values (1)"
    );
    assert_eq!(
        Insert::table("t")
            .column_name("a")
            .column_name("b")
            .select(Select::columns(Columns::list().column("x").column("y")).from("u"))
            .into_query()
            .as_string(),
        "insert into `t` (`a`,`b`) select `x`,`y` from `u`"
    );
    assert_eq!(
        Insert::table("t")
            .column("a", 1)
            .select(Select::from("u").all_columns())
            .into_query()
            .as_string(),
        "insert into `t` (`a`) select * from `u`"
    );
    assert_eq!(Insert::table("t").into_query().as_string(), "insert into `t`");
    assert_eq!(
        Insert::table("t").select(Select::from("u").all_columns()).into_query().as_string(),
        "insert into `t`select * from `u`"
    );
}

#[test]
fn update_sets_columns_and_filters_rows() {
    assert_eq!(
        Update::table("t")
            .set("a", param(1))
            .set("t.b", query::add(query::column("b"), 1))
            .condition(eq(query::column("id"), param(2)))
            .condition(is_not_null(query::column("a")))
            .into_query()
            .as_string(),
        "update `t` set `a`=?1,`t`.`b`=(`b`+1) where `id`=?2 and `a` is not null"
    );
    assert_eq!(Query::update("t").set("a", 1).into_query().as_string(), "update `t` set `a`=1");
    assert_eq!(Update::table("t").into_query().as_string(), "update `t` set ");
}

#[test]
fn delete_filters_rows() {
    assert_eq!(Delete::from("t").into_query().as_string(), "delete from `t`");
    assert_eq!(
        Query::delete_from("t")
            .condition(eq(query::column("a"), 1))
            .condition(lt(query::column("b"), 2))
            .into_query()
            .as_string(),
        "delete from `t` where `a`=1 and `b`<2"
    );
}

#[test]
fn a_statement_is_appended_as_it_stands() {
    let query = Delete::from("t").into_query();
    let mut buffer = String::from("explain ");
    query.generate(&mut buffer);
    assert_eq!(buffer, "explain delete from `t`");
    assert_eq!(query.clone().as_string(), query.as_string());
}

fn well_nested(text: &str) -> bool {
    let mut depth: i64 = 0;
    for c in text.chars() {
        if c == '(' {
            depth += 1;
        } else if c == ')' {
            depth -= 1;
        }
        if depth < 0 {
            return false;
        }
    }
    depth == 0
}

#[test]
fn generated_parentheses_are_balanced() {
    let inner = Select::columns(count(Column::All))
        .from("u")
        .condition(is_in(query::column("u.id"), Select::columns(query::column("id")).from("v")));
    let query = Select::columns(
        Columns::list()
            .value(coalesce(sum(query::column("a") * 2), 0))
            .value_as("flag", bool_to_integer(or(gt(query::column("b"), 1), is_null(now())))),
    )
    .from("t")
    .with("w", inner)
    .join(Join::left("x").on(and(eq(query::column("x.k"), 1), ne(query::column("x.j"), "s"))))
    .condition(between(query::column("c"), param(1), param(2)))
    .order_by_random()
    .limit(param(3) + 1)
    .into_query()
    .as_string();
    assert!(well_nested(&query), "{}", query);
    assert!(well_nested(
        &Insert::table("t").column("a", max(query::column("b")) / 2).into_query().as_string()
    ));
    assert!(well_nested(
        &Update::table("t").set("a", avg(param(1))).into_query().as_string()
    ));
    assert!(!well_nested(&text_of(Value::String(")(".to_string()))));
}
