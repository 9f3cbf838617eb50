use kodama::database::{
    Database, DatabaseBuilder, DatabaseConnection, DatabaseOpen, DatabaseQuery,
    DatabaseQueryShortcut, Row, SqlValue, Transaction,
};
use kodama::query;
use kodama::query::{eq, param, IntoQuery, Insert, Select};
use kodama::store::Kodama;
use kodama::{ApiError, Client, Error, Record, SqlError, Timestamp};
use std::cell::RefCell;
use std::rc::Rc;

/// An in-memory SQLite database behind the connection trait.
struct Sqlite {
    conn: rusqlite::Connection,
    client: Option<Client>,
    sent: Rc<RefCell<Vec<Record>>>,
}

fn backend_error(error: rusqlite::Error) -> SqlError {
    match error {
        rusqlite::Error::QueryReturnedNoRows => SqlError::QueryReturnedNoRows,
        other => SqlError::Backend(other.to_string()),
    }
}

fn bound(value: &SqlValue) -> rusqlite::types::Value {
    match value {
        SqlValue::Null => rusqlite::types::Value::Null,
        SqlValue::Integer(i) => rusqlite::types::Value::Integer(*i),
        SqlValue::Text(text) => rusqlite::types::Value::Text(text.clone()),
        SqlValue::Blob(bytes) => rusqlite::types::Value::Blob(bytes.clone()),
        SqlValue::Other => rusqlite::types::Value::Null,
    }
}

fn cell(row: &rusqlite::Row<'_>, index: usize) -> Result<SqlValue, SqlError> {
    match row.get_ref(index).map_err(backend_error)? {
        rusqlite::types::ValueRef::Null => Ok(SqlValue::Null),
        rusqlite::types::ValueRef::Integer(i) => Ok(SqlValue::Integer(i)),
        rusqlite::types::ValueRef::Real(_) => Ok(SqlValue::Other),
        rusqlite::types::ValueRef::Text(bytes) => match std::str::from_utf8(bytes) {
            Ok(text) => Ok(SqlValue::Text(text.to_string())),
            Err(_) => Ok(SqlValue::Other),
        },
        rusqlite::types::ValueRef::Blob(bytes) => Ok(SqlValue::Blob(bytes.to_vec())),
    }
}

impl Sqlite {
    fn memory(client: Option<Client>, sent: Rc<RefCell<Vec<Record>>>) -> Sqlite {
        Sqlite {
            conn: rusqlite::Connection::open_in_memory().expect("in-memory database"),
            client,
            sent,
        }
    }
}

impl DatabaseConnection for Sqlite {
    fn xquery(&self, sql: &str, params: &Vec<SqlValue>) -> Result<Vec<Row>, SqlError> {
        let mut statement = self.conn.prepare(sql).map_err(backend_error)?;
        let width = statement.column_count();
        let mut rows = statement
            .query(rusqlite::params_from_iter(params.iter().map(bound)))
            .map_err(backend_error)?;
        let mut result = Vec::new();
        while let Some(row) = rows.next().map_err(backend_error)? {
            let mut values = Vec::new();
            for index in 0..width {
                values.push(cell(row, index)?);
            }
            result.push(Row { values });
        }
        Ok(result)
    }

    fn xexecute(&self, sql: &str, params: &Vec<SqlValue>) -> Result<usize, SqlError> {
        self.conn
            .execute(sql, rusqlite::params_from_iter(params.iter().map(bound)))
            .map_err(backend_error)
    }

    fn xexecute_batch(&self, sql: &str) -> Result<(), SqlError> {
        self.conn.execute_batch(sql).map_err(backend_error)
    }

    fn xlast_insert_rowid(&self) -> i64 {
        self.conn.last_insert_rowid()
    }

    fn xchanges(&self) -> i64 {
        self.conn.changes() as i64
    }

    fn kodama_instance(&self) -> Option<&Client> {
        self.client.as_ref()
    }

    fn xreport(&self, record: Record) {
        self.sent.borrow_mut().push(record);
    }
}

impl DatabaseOpen for Sqlite {
    fn xopen(_path: &str) -> Result<Self, SqlError> {
        Ok(Sqlite::memory(None, Rc::new(RefCell::new(Vec::new()))))
    }
}

fn plain() -> Sqlite {
    Sqlite::memory(None, Rc::new(RefCell::new(Vec::new())))
}

fn numbers() -> Sqlite {
    let db = plain();
    db.xexecute_batch(
        "CREATE TABLE numbers (position INTEGER PRIMARY KEY, value); \
         INSERT INTO numbers (position, value) VALUES (1, 1), (2, 'x'), (3, 3);",
    )
    .unwrap();
    db
}

fn catalog() -> Kodama<Sqlite> {
    let kodama = Kodama::<Sqlite>::instance("data".to_string())
        .unwrap()
        .initialize()
        .unwrap();
    kodama.create_project("demo", "a project").unwrap();
    kodama.create_service("demo", "api", "a service").unwrap();
    kodama
}

#[test]
fn select_many_skips_the_row_that_cannot_be_read() {
    let db = numbers();
    let rows: Vec<i64> = Select::columns(query::column("value"))
        .from("numbers")
        .order_by_asc(query::column("position"))
        .select_many(&db, &vec![])
        .unwrap();
    assert_eq!(rows, vec![1, 3]);
}

#[test]
fn a_row_with_a_real_number_is_skipped_and_the_others_are_read() {
    let db = plain();
    db.xexecute_batch(
        "CREATE TABLE mixed (position INTEGER PRIMARY KEY, value); \
         INSERT INTO mixed (position, value) VALUES (1, 1), (2, 2.5), (3, x'ff'), (4, 4);",
    )
    .unwrap();
    let rows: Vec<i64> = Select::columns(query::column("value"))
        .from("mixed")
        .order_by_asc(query::column("position"))
        .select_many(&db, &vec![])
        .unwrap();
    assert_eq!(rows, vec![1, 4]);
    let positions: Vec<i64> = Select::columns(query::column("position"))
        .from("mixed")
        .order_by_asc(query::column("position"))
        .select_many(&db, &vec![])
        .unwrap();
    assert_eq!(positions, vec![1, 2, 3, 4]);
}

#[test]
fn several_ordering_terms_compose() {
    let db = plain();
    db.xexecute_batch(
        "CREATE TABLE pairs (a INTEGER, b INTEGER); \
         INSERT INTO pairs (a, b) VALUES (1, 1), (2, 1), (1, 2), (2, 2);",
    )
    .unwrap();
    let rows: Vec<(i64, i64)> = Select::columns(kodama::query::Columns::list().column("a").column("b"))
        .from("pairs")
        .order_by_desc(query::column("a"))
        .order_by_asc(query::column("b"))
        .select_many(&db, &vec![])
        .unwrap();
    assert_eq!(rows, vec![(2, 1), (2, 2), (1, 1), (1, 2)]);
}

#[test]
fn select_many_of_nothing_is_empty() {
    let db = numbers();
    let rows: Vec<i64> = Select::columns(query::column("value"))
        .from("numbers")
        .condition(eq(query::column("position"), param(1)))
        .select_many(&db, &vec![SqlValue::Integer(99)])
        .unwrap();
    assert!(rows.is_empty());
}

#[test]
fn select_one_requires_a_row() {
    let db = numbers();
    let query = Select::columns(query::column("value"))
        .from("numbers")
        .condition(eq(query::column("position"), param(1)))
        .into_query();
    let found: Result<i64, SqlError> = query.select_one(&db, &vec![SqlValue::Integer(3)]);
    assert_eq!(found.unwrap(), 3);
    let missing: Result<i64, SqlError> = query.select_one(&db, &vec![SqlValue::Integer(4)]);
    assert!(matches!(missing, Err(SqlError::QueryReturnedNoRows)));
}

#[test]
fn select_maybe_reads_at_most_one_row() {
    let db = numbers();
    let query = Select::columns(query::column("value"))
        .from("numbers")
        .condition(eq(query::column("position"), param(1)))
        .into_query();
    let found: Option<i64> = query.select_maybe(&db, &vec![SqlValue::Integer(1)]).unwrap();
    assert_eq!(found, Some(1));
    let missing: Option<i64> = query.select_maybe(&db, &vec![SqlValue::Integer(7)]).unwrap();
    assert_eq!(missing, None);
    let unreadable: Result<Option<i64>, SqlError> =
        query.select_maybe(&db, &vec![SqlValue::Integer(2)]);
    assert!(matches!(unreadable, Err(SqlError::InvalidColumnType(0))));
}

#[test]
fn insert_returns_the_row_identifier() {
    let db = numbers();
    let id = Insert::table("numbers")
        .column("value", param(1))
        .insert(&db, &vec![SqlValue::Integer(10)])
        .unwrap();
    assert_eq!(id, 4);
    assert_eq!(db.xlast_insert_rowid(), 4);
    assert_eq!(db.xchanges(), 1);
}

#[test]
fn an_insert_of_several_rows_is_an_error() {
    let db = numbers();
    let copied = Insert::table("numbers")
        .column_name("value")
        .select(Select::columns(query::column("value")).from("numbers"))
        .insert(&db, &vec![]);
    assert!(matches!(copied, Err(SqlError::StatementChangedRows(3))));
    let none = Insert::table("numbers")
        .column_name("value")
        .select(
            Select::columns(query::column("value"))
                .from("numbers")
                .condition(eq(query::column("position"), 0)),
        )
        .insert(&db, &vec![]);
    assert!(matches!(none, Err(SqlError::StatementChangedRows(0))));
}

#[test]
fn row_exists_probes_for_a_row() {
    let db = numbers();
    let query = Select::columns(query::column("value"))
        .from("numbers")
        .condition(eq(query::column("position"), param(1)))
        .into_query();
    assert!(query.row_exists(&db, &vec![SqlValue::Integer(2)]).unwrap());
    assert!(!query.row_exists(&db, &vec![SqlValue::Integer(5)]).unwrap());
}

#[test]
fn execute_update_and_delete_change_rows() {
    let db = numbers();
    kodama::query::Update::table("numbers")
        .set("value", param(1))
        .condition(eq(query::column("position"), param(2)))
        .update(&db, &vec![SqlValue::Integer(2), SqlValue::Integer(2)])
        .unwrap();
    let rows: Vec<i64> = Select::columns(query::column("value"))
        .from("numbers")
        .order_by_asc(query::column("position"))
        .select_many(&db, &vec![])
        .unwrap();
    assert_eq!(rows, vec![1, 2, 3]);
    kodama::query::Delete::from("numbers")
        .condition(eq(query::column("position"), param(1)))
        .delete(&db, &vec![SqlValue::Integer(1)])
        .unwrap();
    let rows: Vec<i64> = Select::columns(query::column("value"))
        .from("numbers")
        .order_by_asc(query::column("position"))
        .select_many(&db, &vec![])
        .unwrap();
    assert_eq!(rows, vec![2, 3]);
}

#[test]
fn a_failing_statement_is_an_error() {
    let db = plain();
    let rows: Result<Vec<i64>, SqlError> = Select::columns(query::column("value"))
        .from("nowhere")
        .select_many(&db, &vec![]);
    assert!(matches!(rows, Err(SqlError::Backend(_))));
}

#[test]
fn every_run_is_reported_to_the_telemetry_sink() {
    let sent = Rc::new(RefCell::new(Vec::new()));
    let db = Sqlite::memory(Some(Client::new("demo", "api")), sent.clone());
    db.xexecute_batch("CREATE TABLE numbers (value INTEGER);").unwrap();
    let query = Select::columns(query::column("value")).from("numbers").into_query();
    let rows: Vec<i64> = query.select_many(&db, &vec![]).unwrap();
    assert!(rows.is_empty());
    let failing: Result<Vec<i64>, SqlError> = Select::columns(query::column("value"))
        .from("nowhere")
        .select_many(&db, &vec![]);
    assert!(failing.is_err());
    let sent = sent.borrow();
    assert_eq!(sent.len(), 2);
    assert_eq!(sent[0].project_name, "demo");
    assert_eq!(sent[0].service_name, "api");
    assert_eq!(sent[0].record_name, "sql-query");
    assert_eq!(sent[0].group_by, "select `value` from `numbers`");
    assert_eq!(sent[0].error, 0);
    assert_eq!(sent[1].group_by, "select `value` from `nowhere`");
    assert_eq!(sent[1].error, 1);
}

#[test]
fn a_database_reports_through_the_sink_of_its_backend() {
    let sent = Rc::new(RefCell::new(Vec::new()));
    let backend = Sqlite::memory(None, sent.clone());
    backend.xexecute_batch("CREATE TABLE numbers (value INTEGER);").unwrap();
    let db = Database::new(backend, Some(Client::new("demo", "worker")));
    Insert::table("numbers")
        .column("value", param(1))
        .insert(&db, &vec![SqlValue::Integer(5)])
        .unwrap();
    let tx = db.transaction().unwrap();
    let found: i64 = Select::columns(query::column("value"))
        .from("numbers")
        .select_one(&tx, &vec![])
        .unwrap();
    assert_eq!(found, 5);
    tx.finish().unwrap();
    let sent = sent.borrow();
    assert_eq!(sent.len(), 2);
    assert_eq!(sent[0].service_name, "worker");
    assert_eq!(sent[0].group_by, "insert into `numbers` (`value`) values (?1)");
    assert_eq!(sent[1].group_by, "select `value` from `numbers`");
    assert_eq!(sent[1].error, 0);
}

#[test]
fn a_missing_row_is_no_failure_of_the_run() {
    let sent = Rc::new(RefCell::new(Vec::new()));
    let db = Sqlite::memory(Some(Client::new("demo", "api")), sent.clone());
    db.xexecute_batch("CREATE TABLE numbers (value INTEGER);").unwrap();
    let missing: Result<i64, SqlError> = Select::columns(query::column("value"))
        .from("numbers")
        .select_one(&db, &vec![]);
    assert!(matches!(missing, Err(SqlError::QueryReturnedNoRows)));
    let sent = sent.borrow();
    assert_eq!(sent.len(), 1);
    assert_eq!(sent[0].error, 0);
    assert!(sent[0].timestamp.is_some());
}

#[test]
fn without_a_client_nothing_is_reported() {
    let sent = Rc::new(RefCell::new(Vec::new()));
    let db = Sqlite::memory(None, sent.clone());
    db.xexecute_batch("CREATE TABLE numbers (value INTEGER);").unwrap();
    let rows: Vec<i64> = Select::columns(query::column("value"))
        .from("numbers")
        .select_many(&db, &vec![])
        .unwrap();
    assert!(rows.is_empty());
    assert!(sent.borrow().is_empty());
}

#[test]
fn migrations_are_applied_once_and_in_order() {
    let db: Database<Sqlite> = DatabaseBuilder::new("ignored")
        .with_kodama("demo", "api")
        .with_migration("1", "CREATE TABLE things (name TEXT);")
        .with_migration("2", "INSERT INTO things (name) VALUES ('first');")
        .build()
        .unwrap();
    assert!(db.has_migration("1").unwrap());
    assert!(db.has_migration("2").unwrap());
    assert!(!db.has_migration("3").unwrap());
    let migrations = vec![
        ("2".to_string(), "INSERT INTO things (name) VALUES ('again');".to_string()),
        ("3".to_string(), "INSERT INTO things (name) VALUES ('second');".to_string()),
    ];
    db.apply_migrations(&migrations).unwrap();
    let names: Vec<String> = Select::columns(query::column("name"))
        .from("things")
        .select_many(&db, &vec![])
        .unwrap();
    assert_eq!(names, vec!["first".to_string(), "second".to_string()]);
    assert!(db.kodama_instance().is_some());
}

#[test]
fn a_backend_that_is_open_is_prepared_as_it_is() {
    let sent = Rc::new(RefCell::new(Vec::new()));
    let backend = Sqlite::memory(None, sent.clone());
    let db = DatabaseBuilder::new("unused")
        .with_kodama("demo", "api")
        .with_migration("1", "CREATE TABLE things (name TEXT);")
        .build_on(backend)
        .unwrap();
    assert!(db.has_migration("1").unwrap());
    let names: Vec<String> = Select::columns(query::column("name"))
        .from("things")
        .select_many(&db, &vec![])
        .unwrap();
    assert!(names.is_empty());
    assert_eq!(sent.borrow().len(), 1);
    assert_eq!(sent.borrow()[0].project_name, "demo");
}

#[test]
fn a_failing_migration_is_rolled_back() {
    let db: Database<Sqlite> = DatabaseBuilder::new("ignored").build().unwrap();
    let failed = db.apply_migration("1", "CREATE TABLE things (name TEXT); THIS IS NOT SQL;");
    assert!(matches!(failed, Err(Error::Rusqlite(_))));
    assert!(!db.has_migration("1").unwrap());
    db.apply_migration("1", "CREATE TABLE things (name TEXT);").unwrap();
    assert!(db.has_migration("1").unwrap());
}

#[test]
fn a_transaction_commits_or_rolls_back() {
    let db: Database<Sqlite> = DatabaseBuilder::new("ignored")
        .with_migration("1", "CREATE TABLE things (name TEXT);")
        .build()
        .unwrap();
    let insert = Insert::table("things").column("name", param(1)).into_query();

    let tx = Transaction::new(&db).unwrap();
    insert.execute(&tx, &vec![SqlValue::Text("kept".to_string())]).unwrap();
    tx.commit().unwrap();

    let tx = db.transaction().unwrap();
    insert.execute(&tx, &vec![SqlValue::Text("dropped".to_string())]).unwrap();
    tx.rollback().unwrap();

    let tx = db.transaction().unwrap();
    insert.execute(&tx, &vec![SqlValue::Text("unfinished".to_string())]).unwrap();
    tx.finish().unwrap();

    let names: Vec<String> = Select::columns(query::column("name"))
        .from("things")
        .select_many(&db, &vec![])
        .unwrap();
    assert_eq!(names, vec!["kept".to_string()]);
}

#[test]
fn projects_and_services_are_listed() {
    let kodama = catalog();
    kodama.create_project("other", "another project").unwrap();
    kodama.create_service("demo", "worker", "a second service").unwrap();
    let projects = kodama.project_list().unwrap();
    assert_eq!(projects.len(), 2);
    assert_eq!(projects[0].id, 1);
    assert_eq!(projects[0].name, "demo");
    assert_eq!(projects[0].description, "a project");
    assert_eq!(projects[1].name, "other");
    let services = kodama.service_list("demo").unwrap();
    assert_eq!(services.len(), 2);
    assert_eq!(services[0].name, "api");
    assert_eq!(services[1].name, "worker");
    assert_eq!(services[1].description, "a second service");
    assert!(kodama.service_list("other").unwrap().is_empty());
    assert!(matches!(
        kodama.service_list("ghost"),
        Err(Error::ApiError(ApiError::ProjectNotFound))
    ));
}

#[test]
fn names_resolve_to_ids() {
    let kodama = catalog();
    assert_eq!(kodama.get_project_id("demo").unwrap(), 1);
    assert_eq!(kodama.get_service_id("demo", "api").unwrap(), 1);
    assert!(matches!(
        kodama.get_project_id("Demo"),
        Err(Error::ApiError(ApiError::ProjectNotFound))
    ));
}

#[test]
fn a_missing_service_is_named_in_the_error() {
    let kodama = catalog();
    match kodama.get_service_id("demo", "nope") {
        Err(Error::ApiError(ApiError::ServiceNotFound(name))) => assert_eq!(name, "nope"),
        other => panic!("unexpected: {:?}", other),
    }
}

#[test]
fn a_missing_project_hides_the_service() {
    let kodama = catalog();
    assert!(matches!(
        kodama.get_service_id("ghost", "api"),
        Err(Error::ApiError(ApiError::ProjectNotFound))
    ));
    assert!(matches!(
        kodama.get_service_id("ghost", "nope"),
        Err(Error::ApiError(ApiError::ProjectNotFound))
    ));
    assert!(matches!(
        kodama.create_service("ghost", "api", ""),
        Err(Error::ApiError(ApiError::ProjectNotFound))
    ));
}

#[test]
fn the_first_write_provisions_the_record_and_the_second_reuses_it() {
    let mut kodama = catalog();
    assert!(kodama.record_list("demo", "api").unwrap().is_empty());
    let first = kodama.create_or_get_record_table("demo", "api", "login").unwrap();
    let records = kodama.record_list("demo", "api").unwrap();
    assert_eq!(records.len(), 1);
    assert_eq!(records[0].id, first.1);
    assert_eq!(records[0].name, "login");
    let second = kodama.create_or_get_record_table("demo", "api", "login").unwrap();
    assert_eq!(first, second);
    assert_eq!(kodama.record_list("demo", "api").unwrap().len(), 1);
    let other = kodama.create_or_get_record_table("demo", "api", "logout").unwrap();
    assert_eq!(other.0, first.0);
    assert_ne!(other.1, first.1);
    assert_eq!(kodama.record_list("demo", "api").unwrap().len(), 2);
}

#[test]
fn the_store_of_a_service_is_opened_once() {
    let mut kodama = catalog();
    assert!(kodama.is_consistent());
    kodama.create_service("demo", "worker", "").unwrap();
    let api = kodama.get_service("demo", "api").unwrap();
    let worker = kodama.get_service("demo", "worker").unwrap();
    assert_ne!(api, worker);
    assert_eq!(kodama.get_service("demo", "api").unwrap(), api);
    assert_eq!(kodama.get_service("demo", "worker").unwrap(), worker);
    assert!(matches!(
        kodama.get_service("demo", "nope"),
        Err(Error::ApiError(ApiError::ServiceNotFound(_)))
    ));
    assert_eq!(kodama.get_service("demo", "api").unwrap(), api);
    assert!(kodama.is_consistent());
}

#[test]
fn percentiles_are_the_nearest_rank_by_truncation() {
    let mut kodama = catalog();
    let times = [10u64, 20, 30, 40, 50];
    for (i, time) in times.iter().enumerate() {
        kodama
            .add_record(
                "demo",
                "api",
                "login",
                "select 1",
                Some(Timestamp { microseconds: 1000 + i as u64 }),
                *time,
            )
            .unwrap();
    }
    let entries = kodama.record_entries("demo", "api", "login").unwrap();
    assert_eq!(entries.len(), 1);
    let entry = &entries[0];
    assert_eq!(entry.group_by, "select 1");
    assert_eq!(entry.count, 5);
    assert_eq!(entry.errors, 0);
    assert_eq!(entry.execution_time, 150);
    assert_eq!(entry.min, 10);
    assert_eq!(entry.max, 50);
    assert_eq!(entry.avg, 30);
    assert_eq!(entry.p50, 30);
    assert_eq!(entry.p95, 50);
}

#[test]
fn statistics_are_kept_by_group() {
    let mut kodama = catalog();
    kodama
        .add_record("demo", "api", "login", "a", Some(Timestamp { microseconds: 1 }), 7)
        .unwrap();
    kodama
        .add_record("demo", "api", "login", "b", Some(Timestamp { microseconds: 2 }), 1)
        .unwrap();
    kodama
        .add_record("demo", "api", "login", "b", Some(Timestamp { microseconds: 3 }), 4)
        .unwrap();
    let mut entries = kodama.record_entries("demo", "api", "login").unwrap();
    entries.sort_by(|x, y| x.group_by.cmp(&y.group_by));
    assert_eq!(entries.len(), 2);
    assert_eq!((entries[0].count, entries[0].p50, entries[0].p95), (1, 7, 7));
    assert_eq!(entries[0].avg, 7);
    assert_eq!((entries[1].count, entries[1].p50, entries[1].p95), (2, 4, 4));
    assert_eq!(entries[1].execution_time, 5);
    assert_eq!(entries[1].avg, 3);
    assert_eq!((entries[1].min, entries[1].max), (1, 4));
}

#[test]
fn an_observation_under_a_timestamp_in_use_takes_the_place_of_the_row() {
    let mut kodama = catalog();
    let stamp = Some(Timestamp { microseconds: 42 });
    kodama.add_record("demo", "api", "login", "a", stamp, 10).unwrap();
    kodama.add_record("demo", "api", "login", "a", stamp, 30).unwrap();
    let entries = kodama.record_entries("demo", "api", "login").unwrap();
    assert_eq!(entries.len(), 1);
    assert_eq!(entries[0].count, 1);
    assert_eq!(entries[0].execution_time, 30);
    assert_eq!((entries[0].p50, entries[0].p95), (30, 30));
}

#[test]
fn an_observation_without_a_timestamp_is_stored_under_the_current_time() {
    let mut kodama = catalog();
    kodama.add_record("demo", "api", "login", "a", None, 5).unwrap();
    let entries = kodama.record_entries("demo", "api", "login").unwrap();
    assert_eq!(entries.len(), 1);
    assert_eq!(entries[0].count, 1);
}

#[test]
fn an_execution_time_beyond_the_backend_is_refused() {
    let mut kodama = catalog();
    let refused = kodama.add_record(
        "demo",
        "api",
        "login",
        "a",
        Some(Timestamp { microseconds: 1 }),
        u64::MAX,
    );
    assert!(matches!(
        refused,
        Err(Error::Rusqlite(SqlError::ParameterOutOfRange(3)))
    ));
}

#[test]
fn entries_of_an_unknown_record_are_a_typed_miss() {
    let mut kodama = catalog();
    assert!(matches!(
        kodama.record_entries("demo", "api", "never"),
        Err(Error::ApiError(ApiError::RecordNotFound))
    ));
    assert!(matches!(
        kodama.record_entries("demo", "nope", "never"),
        Err(Error::ApiError(ApiError::ServiceNotFound(_)))
    ));
    assert!(matches!(
        kodama.get_record_id(1, "never"),
        Err(Error::ApiError(ApiError::RecordNotFound))
    ));
}

#[test]
fn only_records_of_operations_that_did_not_fail_are_stored() {
    let mut kodama = catalog();
    let client = Client::new("demo", "api");
    let good = client.record("login", "a", 12);
    let bad = client.record_with_error("login", "a", 99, true);
    assert!(kodama.handle_record(&good).unwrap());
    assert!(!kodama.handle_record(&bad).unwrap());
    let entries = kodama.record_entries("demo", "api", "login").unwrap();
    assert_eq!(entries.len(), 1);
    assert_eq!(entries[0].count, 1);
    assert_eq!(entries[0].execution_time, 12);
}
