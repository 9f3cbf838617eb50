//! A database handle with its telemetry client, schema migrations, and
//! transactions.

use super::connection::{
    ask_batch,
    ask_execute,
    ask_query,
    batch_answer,
    execute_answer,
    query_answer,
    values_view,
    DatabaseConnection,
    DatabaseOpen,
    SqlValueView,
};
use super::query::{decode_first, require_row};
use super::value::{Row, SqlValue};
use crate::client::{Client, Record};
use crate::error::{Error, SqlError};
use vstd::prelude::*;

verus! {

/// The statement that makes the table of applied migrations, unless it is there.
pub fn migrations_table_sql() -> (sql: &'static str)
    ensures
        sql@ == "CREATE TABLE IF NOT EXISTS migrations (version TEXT PRIMARY KEY);"@,
{
    "CREATE TABLE IF NOT EXISTS migrations (version TEXT PRIMARY KEY);"
}

/// What is needed to open a database: the path of its file, the telemetry
/// identity if it reports, and the migrations that its schema is made of.
pub struct DatabaseBuilder {
    path: String,
    kodama: Option<(String, String)>,
    migrations: Vec<(String, String)>,
}

/// What a `DatabaseBuilder` holds.
pub struct DatabaseBuilderView {
    pub path: Seq<char>,
    /// The project and the service that the database reports as.
    pub kodama: Option<(Seq<char>, Seq<char>)>,
    /// Each migration: its version and its statements.
    pub migrations: Seq<(Seq<char>, Seq<char>)>,
}

/// The views of the pairs, in order.
pub open spec fn pairs_view(pairs: Seq<(String, String)>) -> Seq<(Seq<char>, Seq<char>)> {
    Seq::new(pairs.len(), |i: int| (pairs[i].0@, pairs[i].1@))
}

impl View for DatabaseBuilder {
    type V = DatabaseBuilderView;

    closed spec fn view(&self) -> DatabaseBuilderView {
        DatabaseBuilderView {
            path: self.path@,
            kodama: match self.kodama {
                Some(pair) => Some((pair.0@, pair.1@)),
                None => None,
            },
            migrations: pairs_view(self.migrations@),
        }
    }
}

impl DatabaseBuilder {
    pub fn new(path: &str) -> (builder: Self)
        ensures
            builder@ == (DatabaseBuilderView {
                path: path@,
                kodama: None,
                migrations: Seq::empty(),
            }),
    {
        let builder = Self { path: path.to_owned(), kodama: None, migrations: Vec::new() };
        assert(builder@.migrations =~= Seq::empty());
        builder
    }

    /// Makes the database report its statements as the service `service` of
    /// the project `name`.
    pub fn with_kodama(self, name: &str, service: &str) -> (builder: Self)
        ensures
            builder@ == (DatabaseBuilderView { kodama: Some((name@, service@)), ..self@ }),
    {
        let mut builder = self;
        builder.kodama = Some((name.to_owned(), service.to_owned()));
        builder
    }

    /// Adds a migration after those already there.
    pub fn with_migration(self, version: &str, sql: &str) -> (builder: Self)
        ensures
            builder@ == (DatabaseBuilderView {
                migrations: self@.migrations.push((version@, sql@)),
                ..self@
            }),
    {
        let mut builder = self;
        let pair = (version.to_owned(), sql.to_owned());
        assert(pairs_view(builder.migrations@.push(pair)) =~= pairs_view(builder.migrations@).push(
            (pair.0@, pair.1@),
        ));
        builder.migrations.push(pair);
        builder
    }

    /// Opens the database: foreign keys are switched on, the table of applied
    /// migrations is made, and every migration that is not yet applied is
    /// applied, in order. The first failure ends the work and is the result.
    pub fn build<C: DatabaseOpen>(self) -> (database: Result<Database<C>, Error>)
        ensures
            exists|opened: Result<C, SqlError>| #[trigger]
                super::connection::opened_with_foreign_keys(self@.path, opened) && match opened {
                    Err(error) => database == Err::<Database<C>, Error>(Error::Rusqlite(error)),
                    Ok(conn) => built_on(conn, self@, database),
                },
    {
        let opened = super::connection::open_with_foreign_keys::<C>(self.path.as_str());
        assert(super::connection::opened_with_foreign_keys(self@.path, opened));
        match opened {
            Ok(conn) => self.build_on(conn),
            Err(error) => Err(Error::Rusqlite(error)),
        }
    }

    /// Prepares a backend that is open already: the table of applied
    /// migrations is made, and every migration that is not yet applied is
    /// applied, in order. The first failure ends the work and is the result.
    /// The path of the builder is not used.
    pub fn build_on<C: DatabaseConnection>(self, conn: C) -> (database: Result<Database<C>, Error>)
        ensures
            built_on(conn, self@, database),
    {
        let table = ask_batch(&conn, migrations_table_sql());
        assert(batch_answer(
            &conn,
            "CREATE TABLE IF NOT EXISTS migrations (version TEXT PRIMARY KEY);"@,
            table,
        ));
        match table {
            Ok(_) => {},
            Err(error) => {
                assert(migrated(
                    &conn,
                    self@.migrations,
                    Err::<(), Error>(Error::Rusqlite(error)),
                ));
                return Err(Error::Rusqlite(error));
            },
        }
        let kodama = match &self.kodama {
            Some(pair) => Some(Client::new(pair.0.as_str(), pair.1.as_str())),
            None => None,
        };
        let ghost backend = conn;
        let db = Database { conn, kodama };
        let done = db.apply_migrations(&self.migrations);
        assert(migrated(&backend, self@.migrations, done));
        match done {
            Ok(unit) => {
                assert(unit == ());
                Ok(db)
            },
            Err(error) => Err(error),
        }
    }
}

/// Whether `database` is what preparing the open backend `conn` gives: a
/// handle on the backend with the telemetry client of the builder, after
/// the migrations were applied; or the failure that ended the migrations.
pub open spec fn built_on<C: DatabaseConnection>(
    conn: C,
    builder: DatabaseBuilderView,
    database: Result<Database<C>, Error>,
) -> bool {
    match database {
        Ok(db) => *db.backend() == conn && migrated(&conn, builder.migrations, Ok::<(), Error>(()))
            && match builder.kodama {
            Some(pair) => db.client() matches Some(client) && client.project_name() == pair.0
                && client.service_name() == pair.1,
            None => db.client() is None,
        },
        Err(error) => migrated(&conn, builder.migrations, Err::<(), Error>(error)),
    }
}

/// A database handle: the backend connection and the telemetry client, if
/// the database reports.
pub struct Database<C: DatabaseConnection> {
    pub(crate) conn: C,
    pub(crate) kodama: Option<Client>,
}

/// What the lookup of a migration makes of the first column of the first
/// row: the migration is applied where the column holds another integer
/// than zero.
pub open spec fn migration_found(answer: Result<Vec<Row>, SqlError>) -> Result<bool, SqlError> {
    match super::query::required(super::query::first_decoded::<i64>(answer)) {
        Ok(flag) => Ok(flag != 0),
        Err(error) => Err(error),
    }
}

/// The parameters of the statements that speak of one migration: its version.
pub open spec fn migration_params(version: Seq<char>) -> Seq<SqlValueView> {
    seq![SqlValueView::Text(version)]
}

/// What a step of a migration makes of the answer of the backend.
pub open spec fn step_done<T>(answer: Result<T, SqlError>) -> Result<(), Error> {
    match answer {
        Ok(_) => Ok(()),
        Err(error) => Err(Error::Rusqlite(error)),
    }
}

/// The backend was asked to roll the transaction back.
pub open spec fn rolled_back<C: DatabaseConnection>(conn: &C) -> bool {
    exists|answer: Result<(), SqlError>| #[trigger] batch_answer(conn, "ROLLBACK;"@, answer)
}

/// Whether `found` is what the lookup of the migration `version` gives.
pub open spec fn migration_checked<C: DatabaseConnection>(
    conn: &C,
    version: Seq<char>,
    found: Result<bool, Error>,
) -> bool {
    exists|answer: Result<Vec<Row>, SqlError>| #[trigger]
        query_answer(
            conn,
            "SELECT EXISTS(SELECT 1 FROM migrations WHERE version = ?1);"@,
            migration_params(version),
            answer,
        ) && match migration_found(answer) {
            Ok(flag) => found == Ok::<bool, Error>(flag),
            Err(error) => found == Err::<bool, Error>(Error::Rusqlite(error)),
        }
}

/// Whether `done` is what applying the migration `version` gives: a
/// transaction begins, the statements `sql` run, the version is recorded,
/// and the transaction is committed. The first step that fails is the
/// result, and a transaction that had begun is then rolled back.
pub open spec fn migration_applied<C: DatabaseConnection>(
    conn: &C,
    version: Seq<char>,
    sql: Seq<char>,
    done: Result<(), Error>,
) -> bool {
    exists|begun: Result<(), SqlError>| #[trigger]
        batch_answer(conn, "BEGIN DEFERRED;"@, begun) && if begun is Err {
            done == step_done(begun)
        } else {
            exists|ran: Result<(), SqlError>| #[trigger]
                batch_answer(conn, sql, ran) && if ran is Err {
                    done == step_done(ran) && rolled_back(conn)
                } else {
                    exists|recorded: Result<usize, SqlError>| #[trigger]
                        execute_answer(
                            conn,
                            "INSERT INTO migrations (version) VALUES (?1)"@,
                            migration_params(version),
                            recorded,
                        ) && if recorded is Err {
                            done == step_done(recorded) && rolled_back(conn)
                        } else {
                            exists|committed: Result<(), SqlError>| #[trigger]
                                batch_answer(conn, "COMMIT;"@, committed) && done == step_done(
                                    committed,
                                ) && (committed is Err ==> rolled_back(conn))
                        }
                }
        }
}

/// Whether `done` is what applying the migrations from the position `from`
/// on gives: each is looked up, and applied unless it is recorded as
/// applied, in order; the first failure ends the work and is the result.
pub open spec fn migrations_applied<C: DatabaseConnection>(
    conn: &C,
    migrations: Seq<(Seq<char>, Seq<char>)>,
    from: int,
    done: Result<(), Error>,
) -> bool
    decreases migrations.len() - from,
{
    if from < 0 || from >= migrations.len() {
        done == Ok::<(), Error>(())
    } else {
        exists|found: Result<bool, Error>| #[trigger]
            migration_checked(conn, migrations[from].0, found) && match found {
                Err(error) => done == Err::<(), Error>(error),
                Ok(true) => migrations_applied(conn, migrations, from + 1, done),
                Ok(false) => exists|one: Result<(), Error>| #[trigger]
                    migration_applied(conn, migrations[from].0, migrations[from].1, one)
                        && match one {
                        Err(error) => done == Err::<(), Error>(error),
                        Ok(_) => migrations_applied(conn, migrations, from + 1, done),
                    },
            }
    }
}

/// Whether `done` is what preparing an open backend gives: the table of
/// applied migrations is made, and the migrations are applied.
pub open spec fn migrated<C: DatabaseConnection>(
    conn: &C,
    migrations: Seq<(Seq<char>, Seq<char>)>,
    done: Result<(), Error>,
) -> bool {
    exists|table: Result<(), SqlError>| #[trigger]
        batch_answer(
            conn,
            "CREATE TABLE IF NOT EXISTS migrations (version TEXT PRIMARY KEY);"@,
            table,
        ) && if table is Err {
            done == step_done(table)
        } else {
            migrations_applied(conn, migrations, 0, done)
        }
}

impl<C: DatabaseConnection> Database<C> {
    /// A handle on an open backend connection.
    pub fn new(conn: C, kodama: Option<Client>) -> (db: Self)
        ensures
            db.client() == kodama,
    {
        Database { conn, kodama }
    }

    /// The telemetry client of the database.
    pub closed spec fn client(&self) -> Option<Client> {
        self.kodama
    }

    /// The backend connection of the database.
    pub closed spec fn backend(&self) -> &C {
        &self.conn
    }

    /// Whether the migration `version` is recorded as applied.
    pub fn has_migration(&self, version: &str) -> (found: Result<bool, Error>)
        ensures
            migration_checked(self.backend(), version@, found),
    {
        let mut params: Vec<SqlValue> = Vec::new();
        params.push(SqlValue::Text(version.to_owned()));
        assert(values_view(params@) =~= migration_params(version@));
        let answer = ask_query(
            &self.conn,
            "SELECT EXISTS(SELECT 1 FROM migrations WHERE version = ?1);",
            &params,
        );
        assert(query_answer(
            self.backend(),
            "SELECT EXISTS(SELECT 1 FROM migrations WHERE version = ?1);"@,
            migration_params(version@),
            answer,
        ));
        match require_row(decode_first::<i64>(answer)) {
            Ok(flag) => Ok(flag != 0),
            Err(error) => Err(Error::Rusqlite(error)),
        }
    }

    /// Asks the backend to roll the transaction back; what it answers is
    /// left aside, since the failure that led here is the result.
    fn abandon(&self)
        ensures
            rolled_back(self.backend()),
    {
        let answer = ask_batch(&self.conn, "ROLLBACK;");
        assert(batch_answer(self.backend(), "ROLLBACK;"@, answer));
    }

    /// Applies one migration inside a transaction: its statements run, its
    /// version is recorded, and the transaction is committed. A failure rolls
    /// the transaction back and is the result.
    pub fn apply_migration(&self, version: &str, sql: &str) -> (done: Result<(), Error>)
        ensures
            migration_applied(self.backend(), version@, sql@, done),
    {
        let begun = ask_batch(&self.conn, "BEGIN DEFERRED;");
        assert(batch_answer(self.backend(), "BEGIN DEFERRED;"@, begun));
        match begun {
            Ok(_) => {},
            Err(error) => {
                return Err(Error::Rusqlite(error));
            },
        }
        let ran = ask_batch(&self.conn, sql);
        assert(batch_answer(self.backend(), sql@, ran));
        match ran {
            Ok(_) => {},
            Err(error) => {
                self.abandon();
                return Err(Error::Rusqlite(error));
            },
        }
        let mut params: Vec<SqlValue> = Vec::new();
        params.push(SqlValue::Text(version.to_owned()));
        assert(values_view(params@) =~= migration_params(version@));
        let recorded = ask_execute(
            &self.conn,
            "INSERT INTO migrations (version) VALUES (?1)",
            &params,
        );
        assert(execute_answer(
            self.backend(),
            "INSERT INTO migrations (version) VALUES (?1)"@,
            migration_params(version@),
            recorded,
        ));
        match recorded {
            Ok(_) => {},
            Err(error) => {
                self.abandon();
                return Err(Error::Rusqlite(error));
            },
        }
        let committed = ask_batch(&self.conn, "COMMIT;");
        assert(batch_answer(self.backend(), "COMMIT;"@, committed));
        match committed {
            Ok(_) => Ok(()),
            Err(error) => {
                self.abandon();
                Err(Error::Rusqlite(error))
            },
        }
    }

    /// Applies, in order, every migration that is not yet recorded as
    /// applied. The first failure ends the work and is the result.
    pub fn apply_migrations(&self, migrations: &Vec<(String, String)>) -> (done: Result<(), Error>)
        ensures
            migrations_applied(self.backend(), pairs_view(migrations@), 0, done),
    {
        let ghost all = pairs_view(migrations@);
        let mut i: usize = 0;
        while i < migrations.len()
            invariant
                i <= migrations.len(),
                all == pairs_view(migrations@),
                forall|rest: Result<(), Error>|
                    migrations_applied(self.backend(), all, i as int, rest)
                        ==> #[trigger] migrations_applied(self.backend(), all, 0, rest),
            decreases migrations.len() - i,
        {
            let pair = &migrations[i];
            let found = self.has_migration(pair.0.as_str());
            assert(migration_checked(self.backend(), all[i as int].0, found));
            match found {
                Err(error) => {
                    assert(migrations_applied(
                        self.backend(),
                        all,
                        i as int,
                        Err::<(), Error>(error),
                    ));
                    return Err(error);
                },
                Ok(true) => {
                    assert forall|rest: Result<(), Error>|
                        migrations_applied(
                            self.backend(),
                            all,
                            i + 1,
                            rest,
                        ) implies #[trigger] migrations_applied(self.backend(), all, 0, rest) by {
                        assert(migrations_applied(self.backend(), all, i as int, rest));
                    }
                },
                Ok(false) => {
                    let one = self.apply_migration(pair.0.as_str(), pair.1.as_str());
                    assert(migration_applied(
                        self.backend(),
                        all[i as int].0,
                        all[i as int].1,
                        one,
                    ));
                    match one {
                        Ok(_) => {
                            assert forall|rest: Result<(), Error>|
                                migrations_applied(
                                    self.backend(),
                                    all,
                                    i + 1,
                                    rest,
                                ) implies #[trigger] migrations_applied(
                                self.backend(),
                                all,
                                0,
                                rest,
                            ) by {
                                assert(migrations_applied(self.backend(), all, i as int, rest));
                            }
                        },
                        Err(error) => {
                            assert(migrations_applied(
                                self.backend(),
                                all,
                                i as int,
                                Err::<(), Error>(error),
                            ));
                            return Err(error);
                        },
                    }
                },
            }
            i = i + 1;
        }
        assert(migrations_applied(self.backend(), all, i as int, Ok::<(), Error>(())));
        Ok(())
    }

    /// Begins a transaction on the database.
    pub fn transaction(&self) -> (tx: Result<Transaction<'_, C>, Error>)
        ensures
            began(self, tx),
    {
        Transaction::new(self)
    }
}

impl<C: DatabaseConnection> DatabaseConnection for Database<C> {
    /// The answer is the answer of the backend.
    fn xquery(&self, sql: &str, params: &Vec<SqlValue>) -> (answer: Result<Vec<Row>, SqlError>)
        ensures
            call_ensures(C::xquery, (self.backend(), sql, params), answer),
    {
        self.conn.xquery(sql, params)
    }

    /// The answer is the answer of the backend.
    fn xexecute(&self, sql: &str, params: &Vec<SqlValue>) -> (answer: Result<usize, SqlError>)
        ensures
            call_ensures(C::xexecute, (self.backend(), sql, params), answer),
    {
        self.conn.xexecute(sql, params)
    }

    /// The answer is the answer of the backend.
    fn xexecute_batch(&self, sql: &str) -> (answer: Result<(), SqlError>)
        ensures
            call_ensures(C::xexecute_batch, (self.backend(), sql), answer),
    {
        self.conn.xexecute_batch(sql)
    }

    /// The identifier is the one that the backend names.
    fn xlast_insert_rowid(&self) -> (id: i64)
        ensures
            call_ensures(C::xlast_insert_rowid, (self.backend(),), id),
    {
        self.conn.xlast_insert_rowid()
    }

    /// The number is the one that the backend names.
    fn xchanges(&self) -> (changes: i64)
        ensures
            call_ensures(C::xchanges, (self.backend(),), changes),
    {
        self.conn.xchanges()
    }

    /// The client that the database was given, if any.
    fn kodama_instance(&self) -> (client: Option<&Client>)
        ensures
            match client {
                Some(held) => self.client() == Some(*held),
                None => self.client() is None,
            },
    {
        self.kodama.as_ref()
    }

    /// The record goes to the sink of the backend.
    fn xreport(&self, record: Record) {
        self.conn.xreport(record)
    }
}

/// What a database answers to a query is what its backend answered.
pub proof fn lemma_database_passes_queries_on<C: DatabaseConnection>(
    db: &Database<C>,
    sql: Seq<char>,
    params: Seq<SqlValueView>,
    answer: Result<Vec<Row>, SqlError>,
)
    requires
        query_answer(db, sql, params, answer),
    ensures
        query_answer(db.backend(), sql, params, answer),
{
    let (text, bound) = choose|text: &str, bound: &Vec<SqlValue>|
        text@ == sql && values_view(bound@) == params && #[trigger] call_ensures(
            Database::<C>::xquery,
            (db, text, bound),
            answer,
        );
    assert(call_ensures(C::xquery, (db.backend(), text, bound), answer));
}

/// What a database answers to a statement is what its backend answered.
pub proof fn lemma_database_passes_statements_on<C: DatabaseConnection>(
    db: &Database<C>,
    sql: Seq<char>,
    params: Seq<SqlValueView>,
    answer: Result<usize, SqlError>,
)
    requires
        execute_answer(db, sql, params, answer),
    ensures
        execute_answer(db.backend(), sql, params, answer),
{
    let (text, bound) = choose|text: &str, bound: &Vec<SqlValue>|
        text@ == sql && values_view(bound@) == params && #[trigger] call_ensures(
            Database::<C>::xexecute,
            (db, text, bound),
            answer,
        );
    assert(call_ensures(C::xexecute, (db.backend(), text, bound), answer));
}

/// A transaction on a database. It is active from its beginning until it is
/// committed or rolled back; what is done to an inactive transaction
/// succeeds and changes nothing.
pub struct Transaction<'a, C: DatabaseConnection> {
    conn: &'a C,
    kodama: Option<Client>,
    active: bool,
}

/// Whether `tx` is what beginning a transaction on `db` gives: an active
/// transaction where the backend took the statement `BEGIN DEFERRED;`, else
/// the failure of the backend.
pub open spec fn began<'a, C: DatabaseConnection>(
    db: &'a Database<C>,
    tx: Result<Transaction<'a, C>, Error>,
) -> bool {
    exists|answer: Result<(), SqlError>| #[trigger]
        batch_answer(db.backend(), "BEGIN DEFERRED;"@, answer) && match answer {
            Ok(_) => tx matches Ok(t) && t.is_active() && t.backend() == db.backend() && t.client()
                == db.client(),
            Err(error) => tx matches Err(e) && e == Error::Rusqlite(error),
        }
}

/// Whether `done` and `active` are what ending a transaction with the
/// statement `sql` gives: an inactive transaction is left as it is; an
/// active one sends the statement, and is over where the backend took it.
pub open spec fn ended<C: DatabaseConnection>(
    conn: &C,
    was_active: bool,
    sql: Seq<char>,
    done: Result<(), Error>,
    active: bool,
) -> bool {
    if !was_active {
        done == Ok::<(), Error>(()) && !active
    } else {
        exists|answer: Result<(), SqlError>| #[trigger]
            batch_answer(conn, sql, answer) && match answer {
                Ok(_) => done == Ok::<(), Error>(()) && !active,
                Err(error) => done == Err::<(), Error>(Error::Rusqlite(error)) && active,
            }
    }
}

impl<'a, C: DatabaseConnection> Transaction<'a, C> {
    /// Whether the transaction is neither committed nor rolled back yet.
    pub closed spec fn is_active(&self) -> bool {
        self.active
    }

    /// The backend connection that the transaction runs on.
    pub closed spec fn backend(&self) -> &C {
        self.conn
    }

    /// The telemetry client of the transaction: that of its database.
    pub closed spec fn client(&self) -> Option<Client> {
        self.kodama
    }

    /// Begins a transaction on `db`.
    pub fn new(db: &'a Database<C>) -> (tx: Result<Self, Error>)
        ensures
            began(db, tx),
    {
        let transaction = Self { conn: &db.conn, kodama: db.kodama.clone(), active: true };
        let begun = transaction.begin_();
        proof {
            let answer = choose|answer: Result<(), SqlError>| #[trigger]
                batch_answer(transaction.backend(), "BEGIN DEFERRED;"@, answer) && match answer {
                    Ok(_) => begun == Ok::<(), Error>(()),
                    Err(error) => begun == Err::<(), Error>(Error::Rusqlite(error)),
                };
            assert(batch_answer(db.backend(), "BEGIN DEFERRED;"@, answer));
        }
        match begun {
            Ok(_) => Ok(transaction),
            Err(error) => Err(error),
        }
    }

    fn begin_(&self) -> (done: Result<(), Error>)
        ensures
            exists|answer: Result<(), SqlError>| #[trigger]
                batch_answer(self.backend(), "BEGIN DEFERRED;"@, answer) && match answer {
                    Ok(_) => done == Ok::<(), Error>(()),
                    Err(error) => done == Err::<(), Error>(Error::Rusqlite(error)),
                },
    {
        let answer = ask_batch(self.conn, "BEGIN DEFERRED;");
        assert(batch_answer(self.backend(), "BEGIN DEFERRED;"@, answer));
        match answer {
            Ok(_) => Ok(()),
            Err(error) => Err(Error::Rusqlite(error)),
        }
    }

    /// Commits the transaction.
    pub fn commit(self) -> (done: Result<(), Error>)
        ensures
            exists|active: bool| ended(self.backend(), self.is_active(), "COMMIT;"@, done, active),
    {
        let mut tx = self;
        tx.commit_()
    }

    fn commit_(&mut self) -> (done: Result<(), Error>)
        ensures
            final(self).backend() == old(self).backend(),
            ended(old(self).backend(), old(self).is_active(), "COMMIT;"@, done, final(self).is_active()),
    {
        if !self.active {
            return Ok(());
        }
        match ask_batch(self.conn, "COMMIT;") {
            Ok(_) => {
                self.active = false;
                Ok(())
            },
            Err(error) => Err(Error::Rusqlite(error)),
        }
    }

    /// Rolls the transaction back.
    pub fn rollback(self) -> (done: Result<(), Error>)
        ensures
            exists|active: bool| ended(self.backend(), self.is_active(), "ROLLBACK;"@, done, active),
    {
        let mut tx = self;
        tx.rollback_()
    }

    fn rollback_(&mut self) -> (done: Result<(), Error>)
        ensures
            final(self).backend() == old(self).backend(),
            ended(
                old(self).backend(),
                old(self).is_active(),
                "ROLLBACK;"@,
                done,
                final(self).is_active(),
            ),
    {
        if !self.active {
            return Ok(());
        }
        match ask_batch(self.conn, "ROLLBACK;") {
            Ok(_) => {
                self.active = false;
                Ok(())
            },
            Err(error) => Err(Error::Rusqlite(error)),
        }
    }

    /// Ends the transaction: what was not committed is rolled back.
    pub fn finish(self) -> (done: Result<(), Error>)
        ensures
            exists|active: bool| ended(self.backend(), self.is_active(), "ROLLBACK;"@, done, active),
    {
        let mut tx = self;
        tx.finish_()
    }

    fn finish_(&mut self) -> (done: Result<(), Error>)
        ensures
            final(self).backend() == old(self).backend(),
            ended(
                old(self).backend(),
                old(self).is_active(),
                "ROLLBACK;"@,
                done,
                final(self).is_active(),
            ),
    {
        self.rollback_()
    }
}

impl<'a, C: DatabaseConnection> DatabaseConnection for Transaction<'a, C> {
    /// The answer is the answer of the backend.
    fn xquery(&self, sql: &str, params: &Vec<SqlValue>) -> (answer: Result<Vec<Row>, SqlError>)
        ensures
            call_ensures(C::xquery, (self.backend(), sql, params), answer),
    {
        self.conn.xquery(sql, params)
    }

    /// The answer is the answer of the backend.
    fn xexecute(&self, sql: &str, params: &Vec<SqlValue>) -> (answer: Result<usize, SqlError>)
        ensures
            call_ensures(C::xexecute, (self.backend(), sql, params), answer),
    {
        self.conn.xexecute(sql, params)
    }

    /// The answer is the answer of the backend.
    fn xexecute_batch(&self, sql: &str) -> (answer: Result<(), SqlError>)
        ensures
            call_ensures(C::xexecute_batch, (self.backend(), sql), answer),
    {
        self.conn.xexecute_batch(sql)
    }

    /// The identifier is the one that the backend names.
    fn xlast_insert_rowid(&self) -> (id: i64)
        ensures
            call_ensures(C::xlast_insert_rowid, (self.backend(),), id),
    {
        self.conn.xlast_insert_rowid()
    }

    /// The number is the one that the backend names.
    fn xchanges(&self) -> (changes: i64)
        ensures
            call_ensures(C::xchanges, (self.backend(),), changes),
    {
        self.conn.xchanges()
    }

    /// The client that the transaction was given, if any.
    fn kodama_instance(&self) -> (client: Option<&Client>)
        ensures
            match client {
                Some(held) => self.client() == Some(*held),
                None => self.client() is None,
            },
    {
        self.kodama.as_ref()
    }

    /// The record goes to the sink of the backend.
    fn xreport(&self, record: Record) {
        self.conn.xreport(record)
    }
}

} // verus!
