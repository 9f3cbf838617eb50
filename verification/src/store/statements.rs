//! The statements of the catalog and of the time-series tables.

use crate::query;
use crate::query::insert::{insert_sql, InsertView};
use crate::query::select::{plain_select, select_sql, SelectView};
use crate::query::value::bare_sql;
use crate::query::{Insert, IntoQuery, Query, Select};
use crate::text::{int_decimal, push_int, quoted_name};
use vstd::prelude::*;

verus! {

/// The placeholder of the parameter at `position`.
pub open spec fn param_sql(position: int) -> Seq<char> {
    seq!['?'] + int_decimal(position)
}

/// The condition that the column `name` equals the parameter at `position`.
pub open spec fn column_is_param(name: Seq<char>, position: int) -> Seq<char> {
    bare_sql(quoted_name(name), "="@, param_sql(position))
}

/// The text of the schema of the catalog: projects, the services of each
/// project, and the records of each service. Names are unique within their
/// parent, and a child cannot outlive its parent.
pub open spec fn schema_text() -> Seq<char> {
    "CREATE TABLE IF NOT EXISTS projects (project_id INTEGER PRIMARY KEY AUTOINCREMENT, project_name TEXT NOT NULL UNIQUE, description TEXT NOT NULL DEFAULT ''); CREATE TABLE IF NOT EXISTS services (service_id INTEGER PRIMARY KEY AUTOINCREMENT, project_id INTEGER NOT NULL REFERENCES projects(project_id), service_name TEXT NOT NULL, description TEXT NOT NULL DEFAULT '', UNIQUE(project_id, service_name)); CREATE TABLE IF NOT EXISTS records (record_id INTEGER PRIMARY KEY AUTOINCREMENT, service_id INTEGER NOT NULL REFERENCES services(service_id), record_name TEXT NOT NULL, UNIQUE(service_id, record_name));"@
}

/// The schema of the catalog.
pub fn schema_sql() -> (sql: &'static str)
    ensures
        sql@ == schema_text(),
{
    "CREATE TABLE IF NOT EXISTS projects (project_id INTEGER PRIMARY KEY AUTOINCREMENT, project_name TEXT NOT NULL UNIQUE, description TEXT NOT NULL DEFAULT ''); CREATE TABLE IF NOT EXISTS services (service_id INTEGER PRIMARY KEY AUTOINCREMENT, project_id INTEGER NOT NULL REFERENCES projects(project_id), service_name TEXT NOT NULL, description TEXT NOT NULL DEFAULT '', UNIQUE(project_id, service_name)); CREATE TABLE IF NOT EXISTS records (record_id INTEGER PRIMARY KEY AUTOINCREMENT, service_id INTEGER NOT NULL REFERENCES services(service_id), record_name TEXT NOT NULL, UNIQUE(service_id, record_name));"
}

/// The text of the lookup of a project by its name.
pub open spec fn project_lookup_sql() -> Seq<char> {
    select_sql(
        SelectView {
            columns: seq![quoted_name("project_id"@)],
            where_clauses: seq![column_is_param("project_name"@, 1)],
            ..plain_select(Seq::empty(), "projects"@, None)
        },
    )
}

/// The lookup of a project by its name.
pub fn project_lookup() -> (statement: Query)
    ensures
        statement@ == project_lookup_sql(),
{
    let select = Select::columns(query::column("project_id")).from("projects").where_column(
        "project_name",
        query::param(1),
    );
    assert(select@.columns =~= seq![quoted_name("project_id"@)]);
    assert(select@.where_clauses =~= seq![column_is_param("project_name"@, 1)]);
    select.into_query()
}

/// The text of the insert of a project.
pub open spec fn project_insert_sql() -> Seq<char> {
    insert_sql(
        InsertView {
            table: "projects"@,
            columns: seq!["project_name"@, "description"@],
            values: seq![param_sql(1), param_sql(2)],
            select: None,
            ignore: false,
        },
    )
}

/// The insert of a project: its name and its description.
pub fn project_insert() -> (statement: Query)
    ensures
        statement@ == project_insert_sql(),
{
    let insert = Insert::table("projects").column("project_name", query::param(1)).column(
        "description",
        query::param(2),
    );
    assert(insert@.columns =~= seq!["project_name"@, "description"@]);
    assert(insert@.values =~= seq![param_sql(1), param_sql(2)]);
    insert.into_query()
}

/// The text of the listing of all projects.
pub open spec fn project_listing_sql() -> Seq<char> {
    select_sql(
        SelectView {
            columns: seq![
                quoted_name("project_id"@),
                quoted_name("project_name"@),
                quoted_name("description"@),
            ],
            ..plain_select(Seq::empty(), "projects"@, None)
        },
    )
}

/// The listing of all projects: id, name and description of each.
pub fn project_listing() -> (statement: Query)
    ensures
        statement@ == project_listing_sql(),
{
    let select = Select::from("projects").column("project_id").column("project_name").column(
        "description",
    );
    assert(select@.columns =~= seq![
        quoted_name("project_id"@),
        quoted_name("project_name"@),
        quoted_name("description"@),
    ]);
    select.into_query()
}

/// The text of the lookup of a service by its project and its name.
pub open spec fn service_lookup_sql() -> Seq<char> {
    select_sql(
        SelectView {
            columns: seq![quoted_name("service_id"@)],
            where_clauses: seq![
                column_is_param("project_id"@, 1),
                column_is_param("service_name"@, 2),
            ],
            ..plain_select(Seq::empty(), "services"@, None)
        },
    )
}

/// The lookup of a service by the id of its project and its name.
pub fn service_lookup() -> (statement: Query)
    ensures
        statement@ == service_lookup_sql(),
{
    let select = Select::columns(query::column("service_id")).from("services").where_column(
        "project_id",
        query::param(1),
    ).where_column("service_name", query::param(2));
    assert(select@.columns =~= seq![quoted_name("service_id"@)]);
    assert(select@.where_clauses =~= seq![
        column_is_param("project_id"@, 1),
        column_is_param("service_name"@, 2),
    ]);
    select.into_query()
}

/// The text of the insert of a service.
pub open spec fn service_insert_sql() -> Seq<char> {
    insert_sql(
        InsertView {
            table: "services"@,
            columns: seq!["project_id"@, "service_name"@, "description"@],
            values: seq![param_sql(1), param_sql(2), param_sql(3)],
            select: None,
            ignore: false,
        },
    )
}

/// The insert of a service: the id of its project, its name and its description.
pub fn service_insert() -> (statement: Query)
    ensures
        statement@ == service_insert_sql(),
{
    let insert = Insert::table("services").column("project_id", query::param(1)).column(
        "service_name",
        query::param(2),
    ).column("description", query::param(3));
    assert(insert@.columns =~= seq!["project_id"@, "service_name"@, "description"@]);
    assert(insert@.values =~= seq![param_sql(1), param_sql(2), param_sql(3)]);
    insert.into_query()
}

/// The text of the listing of the services of a project.
pub open spec fn service_listing_sql() -> Seq<char> {
    select_sql(
        SelectView {
            columns: seq![
                quoted_name("service_id"@),
                quoted_name("service_name"@),
                quoted_name("description"@),
            ],
            where_clauses: seq![column_is_param("project_id"@, 1)],
            ..plain_select(Seq::empty(), "services"@, None)
        },
    )
}

/// The listing of the services of a project: id, name and description of each.
pub fn service_listing() -> (statement: Query)
    ensures
        statement@ == service_listing_sql(),
{
    let select = Select::from("services").column("service_id").column("service_name").column(
        "description",
    ).where_column("project_id", query::param(1));
    assert(select@.columns =~= seq![
        quoted_name("service_id"@),
        quoted_name("service_name"@),
        quoted_name("description"@),
    ]);
    assert(select@.where_clauses =~= seq![column_is_param("project_id"@, 1)]);
    select.into_query()
}

/// The text of the lookup of a record by its service and its name.
pub open spec fn record_lookup_sql() -> Seq<char> {
    select_sql(
        SelectView {
            columns: seq![quoted_name("record_id"@)],
            where_clauses: seq![
                column_is_param("service_id"@, 1),
                column_is_param("record_name"@, 2),
            ],
            ..plain_select(Seq::empty(), "records"@, None)
        },
    )
}

/// The lookup of a record by the id of its service and its name.
pub fn record_lookup() -> (statement: Query)
    ensures
        statement@ == record_lookup_sql(),
{
    let select = Select::columns(query::column("record_id")).from("records").where_column(
        "service_id",
        query::param(1),
    ).where_column("record_name", query::param(2));
    assert(select@.columns =~= seq![quoted_name("record_id"@)]);
    assert(select@.where_clauses =~= seq![
        column_is_param("service_id"@, 1),
        column_is_param("record_name"@, 2),
    ]);
    select.into_query()
}

/// The text of the insert of a record into the catalog.
pub open spec fn record_insert_sql() -> Seq<char> {
    insert_sql(
        InsertView {
            table: "records"@,
            columns: seq!["service_id"@, "record_name"@],
            values: seq![param_sql(1), param_sql(2)],
            select: None,
            ignore: false,
        },
    )
}

/// The insert of a record into the catalog: the id of its service and its name.
pub fn record_insert() -> (statement: Query)
    ensures
        statement@ == record_insert_sql(),
{
    let insert = Insert::table("records").column("service_id", query::param(1)).column(
        "record_name",
        query::param(2),
    );
    assert(insert@.columns =~= seq!["service_id"@, "record_name"@]);
    assert(insert@.values =~= seq![param_sql(1), param_sql(2)]);
    insert.into_query()
}

/// The text of the listing of the records of a service.
pub open spec fn record_listing_sql() -> Seq<char> {
    select_sql(
        SelectView {
            columns: seq![quoted_name("record_id"@), quoted_name("record_name"@)],
            where_clauses: seq![column_is_param("service_id"@, 1)],
            ..plain_select(Seq::empty(), "records"@, None)
        },
    )
}

/// The listing of the records of a service: id and name of each.
pub fn record_listing() -> (statement: Query)
    ensures
        statement@ == record_listing_sql(),
{
    let select = Select::from("records").column("record_id").column("record_name").where_column(
        "service_id",
        query::param(1),
    );
    assert(select@.columns =~= seq![quoted_name("record_id"@), quoted_name("record_name"@)]);
    assert(select@.where_clauses =~= seq![column_is_param("service_id"@, 1)]);
    select.into_query()
}

/// The name of the table that holds the observations of a record: `record_`
/// and the id of the record.
pub open spec fn record_table(record_id: int) -> Seq<char> {
    "record_"@ + int_decimal(record_id)
}

/// The name of the table that holds the observations of a record.
pub fn record_table_name(record_id: i64) -> (name: String)
    ensures
        name@ == record_table(record_id as int),
{
    let mut name = "record_".to_owned();
    push_int(&mut name, record_id);
    name
}

/// The text of the statement that makes the table of a record, unless it is
/// there: one row for each observation, with the timestamp as its key.
pub open spec fn define_record_sql(record_id: int) -> Seq<char> {
    "CREATE TABLE IF NOT EXISTS "@ + record_table(record_id)
        + " (timestamp INTEGER PRIMARY KEY, group_by TEXT NOT NULL, execution_time_us INTEGER NOT NULL, error INTEGER DEFAULT 0);"@
}

/// The statement that makes the table of a record, unless it is there.
pub fn define_record(record_id: i64) -> (sql: String)
    ensures
        sql@ == define_record_sql(record_id as int),
{
    let mut sql = "CREATE TABLE IF NOT EXISTS ".to_owned();
    let table = record_table_name(record_id);
    sql.append(table.as_str());
    sql.append(
        " (timestamp INTEGER PRIMARY KEY, group_by TEXT NOT NULL, execution_time_us INTEGER NOT NULL, error INTEGER DEFAULT 0);",
    );
    sql
}

/// The text of the statement that stores one observation of a record. The
/// timestamp is the key of the row: an observation under a timestamp that
/// the table holds already takes the place of the row that was there.
pub open spec fn observation_insert_sql(record_id: int) -> Seq<char> {
    "INSERT OR REPLACE INTO "@ + record_table(record_id)
        + " (timestamp, group_by, execution_time_us) VALUES (?1, ?2, ?3)"@
}

/// The statement that stores one observation of a record: its timestamp,
/// its group and its execution time.
pub fn observation_insert(record_id: i64) -> (statement: Query)
    ensures
        statement@ == observation_insert_sql(record_id as int),
{
    let mut sql = "INSERT OR REPLACE INTO ".to_owned();
    let table = record_table_name(record_id);
    sql.append(table.as_str());
    sql.append(" (timestamp, group_by, execution_time_us) VALUES (?1, ?2, ?3)");
    Query::from_text(sql)
}

/// The text of the statement that computes the statistics of each group of
/// a record: the group, the count, the summed, the average (rounded to the
/// nearest integer), the greatest and the least execution time, and the count
/// of the rows whose error flag is set.
pub open spec fn aggregate_sql(record_id: int) -> Seq<char> {
    "SELECT group_by, COUNT(*), SUM(execution_time_us), CAST(ROUND(AVG(execution_time_us)) AS INTEGER), MAX(execution_time_us), MIN(execution_time_us), COUNT(CASE WHEN error > 0 THEN 1 ELSE NULL END) AS error_count FROM "@
        + record_table(record_id) + " GROUP BY group_by"@
}

/// The statement that computes the statistics of each group of a record.
pub fn aggregate(record_id: i64) -> (statement: Query)
    ensures
        statement@ == aggregate_sql(record_id as int),
{
    let mut sql =
        "SELECT group_by, COUNT(*), SUM(execution_time_us), CAST(ROUND(AVG(execution_time_us)) AS INTEGER), MAX(execution_time_us), MIN(execution_time_us), COUNT(CASE WHEN error > 0 THEN 1 ELSE NULL END) AS error_count FROM ".to_owned();
    let table = record_table_name(record_id);
    sql.append(table.as_str());
    sql.append(" GROUP BY group_by");
    Query::from_text(sql)
}

/// The text of the statement that picks one observation of a group by its
/// rank: the execution times of the group in ascending order, one row,
/// starting at the offset given.
pub open spec fn percentile_lookup_sql(record_id: int) -> Seq<char> {
    select_sql(
        SelectView {
            columns: seq![quoted_name("execution_time_us"@)],
            where_clauses: seq![column_is_param("group_by"@, 1)],
            order_by: seq![quoted_name("execution_time_us"@) + " asc"@],
            limit: Some(int_decimal(1)),
            offset: Some(param_sql(2)),
            ..plain_select(Seq::empty(), record_table(record_id), None)
        },
    )
}

/// The statement that picks one observation of a group by its rank.
pub fn percentile_lookup(record_id: i64) -> (statement: Query)
    ensures
        statement@ == percentile_lookup_sql(record_id as int),
{
    let table = record_table_name(record_id);
    let select = Select::columns(query::column("execution_time_us")).from(
        table.as_str(),
    ).where_column("group_by", query::param(1)).order_by_asc(
        query::column("execution_time_us"),
    ).limit(1i64).offset(query::param(2));
    assert(select@.columns =~= seq![quoted_name("execution_time_us"@)]);
    assert(select@.where_clauses =~= seq![column_is_param("group_by"@, 1)]);
    assert(select@.order_by =~= seq![quoted_name("execution_time_us"@) + " asc"@]);
    select.into_query()
}

} // verus!
