use kodama::database::{FromRow, FromSql, Row, SqlValue};
use kodama::names::{check_project_name, check_service_name, valid_name};
use kodama::record::{percentile_rank, DataEntry, ListRecord};
use kodama::sql_trace::Command;
use kodama::store::resolve::{resolve_project, resolve_record, resolve_service};
use kodama::store::service::{choose_timestamp, service_file_name, store_path};
use kodama::store::statements;
use kodama::store::Provisioning;
use kodama::text::{push_int, push_nat, push_quoted, push_quoted_name};
use kodama::{ApiError, Client, Error, Outbox, SqlError, Timestamp};

#[test]
fn percentile_ranks_are_truncated() {
    assert_eq!(percentile_rank(5, 50), 2);
    assert_eq!(percentile_rank(5, 95), 4);
    assert_eq!(percentile_rank(1, 50), 0);
    assert_eq!(percentile_rank(1, 95), 0);
    assert_eq!(percentile_rank(2, 50), 1);
    assert_eq!(percentile_rank(2, 95), 1);
    assert_eq!(percentile_rank(3, 50), 1);
    assert_eq!(percentile_rank(100, 95), 95);
    assert_eq!(percentile_rank(101, 95), 95);
    assert_eq!(percentile_rank(0, 95), 0);
    assert_eq!(percentile_rank(7, 0), 0);
    assert_eq!(percentile_rank(7, 100), 7);
    assert_eq!(percentile_rank(-5, 50), -2);
    assert_eq!(percentile_rank(i64::MAX, 100), i64::MAX);
    assert_eq!(percentile_rank(i64::MAX, 95), 8762203435012037016);
    assert_eq!(percentile_rank(i64::MIN, 100), i64::MIN);
}

#[test]
fn names_are_lowercase_letters_and_hyphens() {
    assert!(valid_name("my-project"));
    assert!(valid_name("abc"));
    assert!(valid_name("-"));
    assert!(valid_name(""));
    assert!(!valid_name("My-project"));
    assert!(!valid_name("my_project"));
    assert!(!valid_name("project1"));
    assert!(!valid_name("my project"));
    assert!(!valid_name("projé"));
    assert!(!valid_name("a{"));
    assert!(!valid_name("a`"));
    assert!(check_project_name("demo").is_ok());
    assert!(matches!(check_project_name("Demo"), Err(ApiError::InvalidProjectName)));
    assert!(check_service_name("api-v").is_ok());
    assert!(matches!(check_service_name("api.v2"), Err(ApiError::InvalidServiceName)));
}

#[test]
fn statement_kinds_have_numbers() {
    let kinds = [
        Command::Select,
        Command::Insert,
        Command::Update,
        Command::Delete,
        Command::Create,
        Command::Alter,
        Command::Drop,
        Command::Truncate,
        Command::Comment,
        Command::SetVariable,
    ];
    for (i, kind) in kinds.iter().enumerate() {
        assert_eq!(kind.to_i64(), i as i64 + 1);
        assert_eq!(Command::from_i64(i as i64 + 1), Some(*kind));
    }
    assert_eq!(Command::from_i64(0), None);
    assert_eq!(Command::from_i64(11), None);
    assert_eq!(Command::from_i64(-1), None);
}

#[test]
fn errors_have_messages() {
    assert_eq!(ApiError::InvalidProjectName.message(), "invalid project name");
    assert_eq!(ApiError::InvalidServiceName.message(), "invalid service name");
    assert_eq!(ApiError::ProjectNotFound.message(), "project not found");
    assert_eq!(ApiError::ServiceNotFound("x".to_string()).message(), "service not found: x");
    assert_eq!(ApiError::InvalidTimestamp.message(), "invalid timestamp");
    assert_eq!(ApiError::RecordNotFound.message(), "record not found");
    assert_eq!(
        ApiError::UnableToCreateDatabasePath.message(),
        "unable to create database path"
    );
    assert_eq!(Error::Rusqlite(SqlError::QueryReturnedNoRows).message(), "rusqlite error");
    assert_eq!(
        Error::ApiError(ApiError::RecordNotFound).message(),
        "api error: record not found"
    );
    assert!(matches!(Error::from(ApiError::ProjectNotFound), Error::ApiError(ApiError::ProjectNotFound)));
    assert!(matches!(
        Error::from(SqlError::StatementChangedRows(2)),
        Error::Rusqlite(SqlError::StatementChangedRows(2))
    ));
    assert!(matches!(SqlError::Backend("x".to_string()).clone(), SqlError::Backend(text) if text == "x"));
}

#[test]
fn every_kind_of_error_goes_out_under_its_own_code() {
    let response = ApiError::InvalidProjectName.json();
    assert_eq!((response.code, response.message.as_str()), (10001, "invalid project name"));
    let response = ApiError::InvalidServiceName.json();
    assert_eq!((response.code, response.message.as_str()), (10002, "invalid service name"));
    let response = ApiError::ProjectNotFound.json();
    assert_eq!((response.code, response.message.as_str()), (10003, "project not found"));
    let response = ApiError::ServiceNotFound("api".to_string()).json();
    assert_eq!((response.code, response.message.as_str()), (10004, "service not found: api"));
    let response = ApiError::InvalidTimestamp.json();
    assert_eq!((response.code, response.message.as_str()), (10005, "invalid timestamp"));
    let response = ApiError::RecordNotFound.json();
    assert_eq!((response.code, response.message.as_str()), (10006, "record not found"));
    let response = ApiError::UnableToCreateDatabasePath.json();
    assert_eq!(
        (response.code, response.message.as_str()),
        (10007, "unable to create database path")
    );
}

#[test]
fn lookups_resolve_to_ids_or_typed_misses() {
    assert_eq!(resolve_project(Ok(Some(4))).unwrap(), 4);
    assert!(matches!(resolve_project(Ok(None)), Err(Error::ApiError(ApiError::ProjectNotFound))));
    assert!(matches!(
        resolve_project(Err(SqlError::InvalidColumnType(0))),
        Err(Error::Rusqlite(SqlError::InvalidColumnType(0)))
    ));
    assert_eq!(resolve_service(Ok(Some(9)), "api").unwrap(), 9);
    assert!(matches!(
        resolve_service(Ok(None), "api"),
        Err(Error::ApiError(ApiError::ServiceNotFound(name))) if name == "api"
    ));
    assert!(matches!(
        resolve_service(Err(SqlError::QueryReturnedNoRows), "api"),
        Err(Error::Rusqlite(SqlError::QueryReturnedNoRows))
    ));
    assert_eq!(resolve_record(Ok(Some(2))).unwrap(), 2);
    assert!(matches!(resolve_record(Ok(None)), Err(Error::ApiError(ApiError::RecordNotFound))));
    assert!(matches!(
        resolve_record(Err(SqlError::InvalidColumnIndex(0))),
        Err(Error::Rusqlite(SqlError::InvalidColumnIndex(0)))
    ));
}

#[test]
fn provisioning_reuses_what_is_there() {
    assert_eq!(Provisioning::plan(Some(3)), Provisioning::Reuse(3));
    assert_eq!(Provisioning::plan(None), Provisioning::Create);
}

#[test]
fn the_timestamp_given_wins_over_the_clock() {
    let given = Timestamp { microseconds: 5 };
    let clock = Timestamp { microseconds: 9 };
    assert_eq!(choose_timestamp(Some(given), Some(clock)).unwrap(), given);
    assert_eq!(choose_timestamp(Some(given), None).unwrap(), given);
    assert_eq!(choose_timestamp(None, Some(clock)).unwrap(), clock);
    assert!(matches!(choose_timestamp(None, None), Err(ApiError::InvalidTimestamp)));
}

#[test]
fn timestamps_are_read_from_rfc3339() {
    assert_eq!(
        Timestamp::parse("1970-01-01T00:00:01Z").unwrap(),
        Timestamp { microseconds: 1_000_000 }
    );
    assert_eq!(
        Timestamp::parse("2001-09-09T01:46:40.000555+00:00").unwrap(),
        Timestamp { microseconds: 1_000_000_000_000_555 }
    );
    assert_eq!(
        Timestamp::parse("1970-01-01T01:00:00+01:00").unwrap(),
        Timestamp { microseconds: 0 }
    );
    assert!(matches!(Timestamp::parse("yesterday"), Err(ApiError::InvalidTimestamp)));
    assert!(matches!(Timestamp::parse(""), Err(ApiError::InvalidTimestamp)));
    assert!(matches!(
        Timestamp::parse("1969-12-31T23:59:59Z"),
        Err(ApiError::InvalidTimestamp)
    ));
    assert_eq!(
        Timestamp::parse_or_now(Some("1970-01-01T00:00:02Z")).unwrap(),
        Timestamp { microseconds: 2_000_000 }
    );
    assert!(matches!(
        Timestamp::parse_or_now(Some("soon")),
        Err(ApiError::InvalidTimestamp)
    ));
    assert!(Timestamp::parse_or_now(None).unwrap().microseconds > 1_600_000_000_000_000);
}

#[test]
fn parsed_moments_before_the_epoch_are_invalid() {
    assert_eq!(Timestamp::from_parsed(Some(0)).unwrap(), Timestamp { microseconds: 0 });
    assert_eq!(Timestamp::from_parsed(Some(17)).unwrap(), Timestamp { microseconds: 17 });
    assert!(matches!(Timestamp::from_parsed(Some(-1)), Err(ApiError::InvalidTimestamp)));
    assert!(matches!(Timestamp::from_parsed(None), Err(ApiError::InvalidTimestamp)));
    let clock = Timestamp { microseconds: 3 };
    assert_eq!(Timestamp::pick(None, Some(clock)).unwrap(), clock);
    assert_eq!(Timestamp::pick(Some(Some(8)), Some(clock)).unwrap(), Timestamp { microseconds: 8 });
    assert!(matches!(Timestamp::pick(Some(None), Some(clock)), Err(ApiError::InvalidTimestamp)));
    assert!(matches!(Timestamp::pick(None, None), Err(ApiError::InvalidTimestamp)));
}

#[test]
fn the_clock_reads_after_the_epoch() {
    let now = Timestamp::now().unwrap();
    assert!(now.microseconds > 1_600_000_000_000_000);
    assert_eq!(Timestamp::from_micros(12).microseconds, 12);
    assert_eq!(Timestamp::from_micros(u64::MAX as u128 + 3).microseconds, 2);
}

#[test]
fn timestamps_are_stored_as_integers() {
    assert!(matches!(Timestamp { microseconds: 0 }.to_sql(), SqlValue::Integer(0)));
    assert!(matches!(Timestamp { microseconds: 77 }.to_sql(), SqlValue::Integer(77)));
    assert!(matches!(Timestamp { microseconds: u64::MAX }.to_sql(), SqlValue::Integer(-1)));
    assert!(matches!(
        Timestamp { microseconds: 1 << 63 }.to_sql(),
        SqlValue::Integer(i64::MIN)
    ));
    assert_eq!(
        Timestamp::column_result(&SqlValue::Integer(-1), 0).unwrap(),
        Timestamp { microseconds: u64::MAX }
    );
    assert_eq!(
        Timestamp::column_result(&SqlValue::Integer(77), 0).unwrap(),
        Timestamp { microseconds: 77 }
    );
    assert!(matches!(
        Timestamp::column_result(&SqlValue::Null, 2),
        Err(SqlError::InvalidColumnType(2))
    ));
}

#[test]
fn column_values_are_read_by_type() {
    assert_eq!(i64::column_result(&SqlValue::Integer(-3), 0).unwrap(), -3);
    assert!(matches!(
        i64::column_result(&SqlValue::Text("3".to_string()), 1),
        Err(SqlError::InvalidColumnType(1))
    ));
    assert!(matches!(i64::column_result(&SqlValue::Null, 4), Err(SqlError::InvalidColumnType(4))));
    assert_eq!(u64::column_result(&SqlValue::Integer(3), 0).unwrap(), 3);
    assert!(matches!(
        u64::column_result(&SqlValue::Integer(-3), 2),
        Err(SqlError::IntegralValueOutOfRange(2, -3))
    ));
    assert!(matches!(
        u64::column_result(&SqlValue::Blob(vec![1]), 2),
        Err(SqlError::InvalidColumnType(2))
    ));
    assert_eq!(String::column_result(&SqlValue::Text("a".to_string()), 0).unwrap(), "a");
    assert!(matches!(
        String::column_result(&SqlValue::Integer(1), 0),
        Err(SqlError::InvalidColumnType(0))
    ));
    assert!(matches!(i64::column_result(&SqlValue::Other, 3), Err(SqlError::InvalidColumnType(3))));
    assert!(matches!(
        String::column_result(&SqlValue::Other, 0),
        Err(SqlError::InvalidColumnType(0))
    ));
    assert!(matches!(
        Option::<i64>::column_result(&SqlValue::Other, 1),
        Err(SqlError::InvalidColumnType(1))
    ));
    assert_eq!(Option::<i64>::column_result(&SqlValue::Null, 0).unwrap(), None);
    assert_eq!(Option::<i64>::column_result(&SqlValue::Integer(1), 0).unwrap(), Some(1));
    assert!(matches!(
        Option::<i64>::column_result(&SqlValue::Text("x".to_string()), 5),
        Err(SqlError::InvalidColumnType(5))
    ));
}

#[test]
fn rows_are_read_column_by_column() {
    let row = Row {
        values: vec![SqlValue::Integer(1), SqlValue::Text("a".to_string()), SqlValue::Null],
    };
    assert!(matches!(row.get(1), Ok(SqlValue::Text(text)) if text == "a"));
    assert!(matches!(row.get(3), Err(SqlError::InvalidColumnIndex(3))));
    assert_eq!(i64::from_row(&row).unwrap(), 1);
    assert!(matches!(u64::from_row(&row), Ok(1)));
    assert!(matches!(String::from_row(&row), Err(SqlError::InvalidColumnType(0))));
    assert_eq!(<(i64, String)>::from_row(&row).unwrap(), (1, "a".to_string()));
    assert_eq!(
        <(i64, String, Option<i64>)>::from_row(&row).unwrap(),
        (1, "a".to_string(), None)
    );
    assert!(matches!(<(String, i64)>::from_row(&row), Err(SqlError::InvalidColumnType(0))));
    assert!(matches!(<(i64, i64)>::from_row(&row), Err(SqlError::InvalidColumnType(1))));
    assert!(matches!(
        <(i64, String, i64)>::from_row(&row),
        Err(SqlError::InvalidColumnType(2))
    ));
    assert_eq!(<()>::from_row(&row).unwrap(), ());
    assert_eq!(Option::<i64>::from_row(&row).unwrap(), Some(1));
    let empty = Row { values: vec![] };
    assert!(matches!(i64::from_row(&empty), Err(SqlError::InvalidColumnIndex(0))));
    assert!(matches!(<(i64, i64)>::from_row(&Row { values: vec![SqlValue::Integer(1)] }), Err(SqlError::InvalidColumnIndex(1))));
    let record = ListRecord::from_row(&row).unwrap();
    assert_eq!((record.id, record.name.as_str()), (1, "a"));
}

#[test]
fn an_aggregate_row_becomes_an_entry_without_percentiles() {
    let row = Row {
        values: vec![
            SqlValue::Text("g".to_string()),
            SqlValue::Integer(5),
            SqlValue::Integer(150),
            SqlValue::Integer(30),
            SqlValue::Integer(50),
            SqlValue::Integer(10),
            SqlValue::Integer(1),
        ],
    };
    let entry = DataEntry::from_row(&row).unwrap();
    assert_eq!(entry.group_by, "g");
    assert_eq!((entry.count, entry.errors), (5, 1));
    assert_eq!((entry.execution_time, entry.avg, entry.max, entry.min), (150, 30, 50, 10));
    assert_eq!((entry.p50, entry.p95), (0, 0));
    let entry = entry.with_percentiles(30, 50);
    assert_eq!(entry.group_by, "g");
    assert_eq!((entry.p50, entry.p95, entry.count), (30, 50, 5));
    let short = Row { values: vec![SqlValue::Text("g".to_string()), SqlValue::Integer(5)] };
    assert!(matches!(DataEntry::from_row(&short), Err(SqlError::InvalidColumnIndex(2))));
    let null_sum = Row {
        values: vec![
            SqlValue::Text("g".to_string()),
            SqlValue::Integer(0),
            SqlValue::Null,
        ],
    };
    assert!(matches!(DataEntry::from_row(&null_sum), Err(SqlError::InvalidColumnType(2))));
}

#[test]
fn records_state_who_reports_and_how_it_ended() {
    let client = Client::new("demo", "api");
    let record = client.record("login", "select 1", 15);
    assert_eq!(record.project_name, "demo");
    assert_eq!(record.service_name, "api");
    assert_eq!(record.record_name, "login");
    assert_eq!(record.group_by, "select 1");
    assert_eq!(record.execution_time_us, 15);
    assert_eq!(record.error, 0);
    assert!(record.timestamp.is_some());
    assert!(record.kept());
    let failed = client.clone().record_with_error("login", "select 1", 15, true);
    assert_eq!(failed.error, 1);
    assert!(!failed.kept());
    assert_eq!(client.record_with_error("a", "b", 0, false).error, 0);
}

#[test]
fn paths_join_with_one_separator() {
    assert_eq!(store_path("data", "kodama.db"), "data/kodama.db");
    assert_eq!(store_path("data/", "kodama.db"), "data/kodama.db");
    assert_eq!(store_path("", "kodama.db"), "kodama.db");
    assert_eq!(store_path("/", "kodama.db"), "/kodama.db");
    assert_eq!(store_path("/var/lib/kodama", "service-3.db"), "/var/lib/kodama/service-3.db");
    assert_eq!(service_file_name(3), "service-3.db");
    assert_eq!(service_file_name(-1), "service--1.db");
}

#[test]
fn the_store_has_its_statements() {
    assert_eq!(
        statements::project_lookup().as_string(),
        "select `project_id` from `projects` where `project_name`=?1"
    );
    assert_eq!(
        statements::project_insert().as_string(),
        "insert into `projects` (`project_name`,`description`) values (?1,?2)"
    );
    assert_eq!(
        statements::project_listing().as_string(),
        "select `project_id`,`project_name`,`description` from `projects`"
    );
    assert_eq!(
        statements::service_lookup().as_string(),
        "select `service_id` from `services` where `project_id`=?1 and `service_name`=?2"
    );
    assert_eq!(
        statements::service_insert().as_string(),
        "insert into `services` (`project_id`,`service_name`,`description`) values (?1,?2,?3)"
    );
    assert_eq!(
        statements::service_listing().as_string(),
        "select `service_id`,`service_name`,`description` from `services` where `project_id`=?1"
    );
    assert_eq!(
        statements::record_lookup().as_string(),
        "select `record_id` from `records` where `service_id`=?1 and `record_name`=?2"
    );
    assert_eq!(
        statements::record_insert().as_string(),
        "insert into `records` (`service_id`,`record_name`) values (?1,?2)"
    );
    assert_eq!(
        statements::record_listing().as_string(),
        "select `record_id`,`record_name` from `records` where `service_id`=?1"
    );
    assert_eq!(statements::record_table_name(12), "record_12");
    assert_eq!(
        statements::define_record(12),
        "CREATE TABLE IF NOT EXISTS record_12 (timestamp INTEGER PRIMARY KEY, group_by TEXT NOT NULL, execution_time_us INTEGER NOT NULL, error INTEGER DEFAULT 0);"
    );
    assert_eq!(
        statements::observation_insert(12).as_string(),
        "INSERT OR REPLACE INTO record_12 (timestamp, group_by, execution_time_us) VALUES (?1, ?2, ?3)"
    );
    assert_eq!(
        statements::percentile_lookup(12).as_string(),
        "select `execution_time_us` from `record_12` where `group_by`=?1 order by `execution_time_us` asc limit 1 offset ?2"
    );
    assert_eq!(
        statements::aggregate(12).as_string(),
        "SELECT group_by, COUNT(*), SUM(execution_time_us), CAST(ROUND(AVG(execution_time_us)) AS INTEGER), MAX(execution_time_us), MIN(execution_time_us), COUNT(CASE WHEN error > 0 THEN 1 ELSE NULL END) AS error_count FROM record_12 GROUP BY group_by"
    );
    assert!(statements::schema_sql().contains("CREATE TABLE IF NOT EXISTS records"));
}

#[test]
fn numbers_and_names_are_appended_to_a_buffer() {
    let mut buffer = String::from("n=");
    push_nat(&mut buffer, 0);
    push_nat(&mut buffer, 907);
    push_nat(&mut buffer, u64::MAX);
    assert_eq!(buffer, "n=090718446744073709551615");
    let mut buffer = String::new();
    push_int(&mut buffer, -10);
    push_int(&mut buffer, 10);
    assert_eq!(buffer, "-1010");
    let mut buffer = String::new();
    push_quoted(&mut buffer, "a.b");
    push_quoted_name(&mut buffer, "a.b");
    assert_eq!(buffer, "`a.b``a`.`b`");
}

#[test]
fn a_full_outbox_drops_what_is_offered() {
    let client = Client::new("demo", "api");
    let mut outbox = Outbox::new(2);
    assert_eq!(outbox.len(), 0);
    assert!(outbox.offer(client.record("r", "first", 1)));
    assert!(outbox.offer(client.record("r", "second", 2)));
    assert!(!outbox.offer(client.record("r", "third", 3)));
    assert_eq!(outbox.len(), 2);
    let records = outbox.take_all();
    assert_eq!(records.len(), 2);
    assert_eq!(records[0].group_by, "first");
    assert_eq!(records[1].group_by, "second");
    assert_eq!(outbox.len(), 0);
    assert!(outbox.take_all().is_empty());
    assert!(outbox.offer(client.record("r", "fourth", 4)));
    assert_eq!(outbox.take_all()[0].group_by, "fourth");
    let mut closed = Outbox::new(0);
    assert!(!closed.offer(client.record("r", "never", 0)));
    assert_eq!(closed.len(), 0);
}
