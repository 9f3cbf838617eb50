//! The catalog: projects, services and records by name, and the registry
//! of the opened service stores.

use super::provision::{Provisioning, RecordCatalog};
use super::resolve::{
    project_resolved,
    record_resolved,
    resolve_project,
    resolve_record,
    resolve_service,
    service_under_project,
};
use super::service::{
    entries_read,
    observation_stored,
    store_file,
    store_opened,
    store_path,
    stored,
    table_defined,
    Service,
};
use super::statements::{
    define_record_sql,
    project_insert,
    project_insert_sql,
    project_listing,
    project_listing_sql,
    project_lookup,
    project_lookup_sql,
    record_insert,
    record_insert_sql,
    record_listing,
    record_listing_sql,
    record_lookup,
    record_lookup_sql,
    schema_sql,
    schema_text,
    service_insert,
    service_insert_sql,
    service_listing,
    service_listing_sql,
    service_lookup,
    service_lookup_sql,
};
use crate::client::Record;
use crate::database::connection::{
    ask_batch,
    batch_answer,
    execute_answer,
    open_with_foreign_keys,
    opened_with_foreign_keys,
    query_answer,
    rowid_answer,
    values_view,
    DatabaseConnection,
    DatabaseOpen,
    SqlValueView,
};
use crate::database::from_row::{decoded_rows, FromRow};
use crate::database::query::{all_decoded, first_decoded, inserted, DatabaseQuery};
use crate::database::value::{Row, SqlValue};
use crate::error::{ApiError, Error, SqlError};
use crate::project::ListProject;
use crate::record::{DataEntry, ListRecord};
use crate::service::ListService;
use crate::timestamp::Timestamp;
use vstd::prelude::*;

verus! {

/// The parameters of a statement that takes one text.
pub open spec fn text_params(text: Seq<char>) -> Seq<SqlValueView> {
    seq![SqlValueView::Text(text)]
}

/// The parameters of a statement that takes two texts.
pub open spec fn two_text_params(first: Seq<char>, second: Seq<char>) -> Seq<SqlValueView> {
    seq![SqlValueView::Text(first), SqlValueView::Text(second)]
}

/// The parameters of a statement that takes one id.
pub open spec fn id_params(id: i64) -> Seq<SqlValueView> {
    seq![SqlValueView::Integer(id as int)]
}

/// The parameters of a statement that takes the id of a parent and a name.
pub open spec fn child_params(parent: i64, name: Seq<char>) -> Seq<SqlValueView> {
    seq![SqlValueView::Integer(parent as int), SqlValueView::Text(name)]
}

/// The parameters of the insert of a service: the id of its project, its
/// name and its description.
pub open spec fn service_params(
    project_id: i64,
    name: Seq<char>,
    description: Seq<char>,
) -> Seq<SqlValueView> {
    seq![
        SqlValueView::Integer(project_id as int),
        SqlValueView::Text(name),
        SqlValueView::Text(description),
    ]
}

/// `found` is what the statement `sql` with `params` found as the id in
/// the first column of its first row.
pub open spec fn id_looked_up<C: DatabaseConnection>(
    conn: &C,
    sql: Seq<char>,
    params: Seq<SqlValueView>,
    found: Result<Option<i64>, SqlError>,
) -> bool {
    exists|answer: Result<Vec<Row>, SqlError>| #[trigger]
        query_answer(conn, sql, params, answer) && found == first_decoded::<i64>(answer)
}

/// Whether `result` is what the insert `sql` with `params` gives: the id
/// that the backend gave to the one new row, else the failure.
pub open spec fn row_created<C: DatabaseConnection>(
    conn: &C,
    sql: Seq<char>,
    params: Seq<SqlValueView>,
    result: Result<i64, Error>,
) -> bool {
    exists|answer: Result<usize, SqlError>| #[trigger]
        execute_answer(conn, sql, params, answer) && match answer {
            Err(error) => result == Err::<i64, Error>(Error::Rusqlite(error)),
            Ok(changes) => if changes == 1 {
                result is Ok && rowid_answer(conn, result->Ok_0)
            } else {
                result == Err::<i64, Error>(
                    Error::Rusqlite(SqlError::StatementChangedRows(changes)),
                )
            },
        }
}

/// Whether `result` is what the listing `sql` with `params` gives: every
/// row that can be read as `T`, in order, the others left out; else the
/// failure of the backend.
pub open spec fn rows_listed<C: DatabaseConnection, T: FromRow>(
    conn: &C,
    sql: Seq<char>,
    params: Seq<SqlValueView>,
    result: Result<Vec<T>, Error>,
) -> bool {
    exists|answer: Result<Vec<Row>, SqlError>| #[trigger]
        query_answer(conn, sql, params, answer) && match answer {
            Err(error) => result == Err::<Vec<T>, Error>(Error::Rusqlite(error)),
            Ok(rows) => result is Ok && result->Ok_0@ == decoded_rows::<T>(rows@),
        }
}

/// Whether `result` is what resolving the project `name` gives.
pub open spec fn project_id_resolved<C: DatabaseConnection>(
    conn: &C,
    name: Seq<char>,
    result: Result<i64, Error>,
) -> bool {
    exists|found: Result<Option<i64>, SqlError>| #[trigger]
        id_looked_up(conn, project_lookup_sql(), text_params(name), found) && project_resolved(
            found,
            result,
        )
}

/// Whether `result` is what resolving the service `service` of the project
/// `project` gives: the project is looked up by its name, and under a
/// project that was found the service is looked up by the id of the project
/// and its own name.
pub open spec fn service_id_resolved<C: DatabaseConnection>(
    conn: &C,
    project: Seq<char>,
    service: Seq<char>,
    result: Result<i64, Error>,
) -> bool {
    exists|in_catalog: Result<Option<i64>, SqlError>, under: Result<Option<i64>, SqlError>|
        id_looked_up(conn, project_lookup_sql(), text_params(project), in_catalog) && (
        in_catalog matches Ok(Some(project_id)) ==> id_looked_up(
            conn,
            service_lookup_sql(),
            child_params(project_id, service),
            under,
        )) && #[trigger] service_under_project(in_catalog, under, service, result)
}

/// Whether `result` is what resolving the record `name` of a service gives.
pub open spec fn record_id_resolved<C: DatabaseConnection>(
    conn: &C,
    service_id: i64,
    name: Seq<char>,
    result: Result<i64, Error>,
) -> bool {
    exists|found: Result<Option<i64>, SqlError>| #[trigger]
        id_looked_up(conn, record_lookup_sql(), child_params(service_id, name), found)
            && record_resolved(found, result)
}

/// One entry of the registry: the names that a store was asked for by, and
/// the handle of the store.
pub struct CacheEntry {
    project: String,
    service: String,
    handle: usize,
}

/// The catalog and the registry of the opened service stores. A store is
/// opened when it is first asked for and is kept from then on; it is found
/// again by the names it was asked for by, and by the id of its service.
pub struct Kodama<C: DatabaseConnection> {
    db: C,
    database_path: String,
    services: Vec<Service<C>>,
    cache: Vec<CacheEntry>,
}

/// The handle that the first entry for the names holds.
spec fn cache_find(entries: Seq<CacheEntry>, project: Seq<char>, service: Seq<char>) -> Option<
    usize,
>
    decreases entries.len(),
{
    if entries.len() == 0 {
        None
    } else {
        match cache_find(entries.drop_last(), project, service) {
            Some(handle) => Some(handle),
            None => if entries.last().project@ == project && entries.last().service@ == service {
                Some(entries.last().handle)
            } else {
                None
            },
        }
    }
}

/// What was found among the first entries is found among all of them.
proof fn lemma_cache_find_stays(
    entries: Seq<CacheEntry>,
    upto: int,
    project: Seq<char>,
    service: Seq<char>,
)
    requires
        0 <= upto <= entries.len(),
        cache_find(entries.take(upto), project, service) is Some,
    ensures
        cache_find(entries, project, service) == cache_find(entries.take(upto), project, service),
    decreases entries.len() - upto,
{
    if upto < entries.len() {
        assert(entries.take(upto + 1).drop_last() =~= entries.take(upto));
        lemma_cache_find_stays(entries, upto + 1, project, service);
    } else {
        assert(entries.take(upto) =~= entries);
    }
}

/// The position of the first store of the service `id`.
spec fn store_find<C: DatabaseConnection>(stores: Seq<Service<C>>, id: i64) -> Option<usize>
    decreases stores.len(),
{
    if stores.len() == 0 {
        None
    } else {
        match store_find(stores.drop_last(), id) {
            Some(handle) => Some(handle),
            None => if stores.last().service_id() == id {
                Some((stores.len() - 1) as usize)
            } else {
                None
            },
        }
    }
}

impl<C: DatabaseConnection> Kodama<C> {
    /// Every entry of the registry holds the handle of a store that is open.
    pub closed spec fn wf(&self) -> bool {
        forall|i: int|
            0 <= i < self.cache.len() ==> (#[trigger] self.cache[i]).handle < self.services.len()
    }

    /// Whether every entry of the registry holds the handle of a store that
    /// is open. It holds of every catalog that this module hands out.
    pub fn is_consistent(&self) -> (consistent: bool)
        ensures
            consistent == self.wf(),
    {
        let mut i: usize = 0;
        while i < self.cache.len()
            invariant
                i <= self.cache.len(),
                forall|k: int| 0 <= k < i ==> (#[trigger] self.cache[k]).handle < self.services.len(),
            decreases self.cache.len() - i,
        {
            if self.cache[i].handle >= self.services.len() {
                return false;
            }
            i = i + 1;
        }
        true
    }

    /// The backend connection of the catalog.
    pub closed spec fn catalog(&self) -> &C {
        &self.db
    }

    /// The directory that the files of the store lie in.
    pub closed spec fn directory(&self) -> Seq<char> {
        self.database_path@
    }

    /// The handle of the store that is kept for the service `service` of the
    /// project `project`, if one is.
    pub closed spec fn cached(&self, project: Seq<char>, service: Seq<char>) -> Option<usize> {
        cache_find(self.cache@, project, service)
    }

    /// The number of the stores that are open.
    pub closed spec fn store_count(&self) -> nat {
        self.services.len() as nat
    }

    /// The store behind a handle.
    pub closed spec fn store(&self, handle: usize) -> Service<C> {
        self.services[handle as int]
    }

    /// The handle of the store of the service `id`, if it is open.
    pub closed spec fn opened(&self, id: i64) -> Option<usize> {
        store_find(self.services@, id)
    }

    /// Whether a write to the record `record` of the service `service` of
    /// the project `project` goes to the table of `record_id` in the store
    /// behind `handle`: the registry keeps the store for the names, the
    /// record was looked up in the catalog by the id of the service, and it
    /// was reused or provisioned by what the lookup found.
    pub open spec fn writes_to(
        &self,
        project: Seq<char>,
        service: Seq<char>,
        record: Seq<char>,
        handle: usize,
        record_id: i64,
    ) -> bool {
        &&& handle < self.store_count()
        &&& self.cached(project, service) == Some(handle)
        &&& exists|found: Result<Option<i64>, SqlError>| #[trigger]
            id_looked_up(
                self.catalog(),
                record_lookup_sql(),
                child_params(self.store(handle).service_id(), record),
                found,
            ) && found is Ok && record_provisioned(
                self.catalog(),
                self.store(handle),
                record,
                found->Ok_0,
                record_id,
            )
    }

    /// Whether `later` is this registry after more stores were opened and
    /// more names were entered: nothing that is kept is dropped or replaced.
    pub open spec fn kept_in(&self, later: &Self) -> bool {
        &&& later.catalog() == self.catalog()
        &&& later.directory() == self.directory()
        &&& self.store_count() <= later.store_count()
        &&& forall|handle: usize|
            handle < self.store_count() ==> #[trigger] later.store(handle) == self.store(handle)
        &&& forall|project: Seq<char>, service: Seq<char>|
            self.cached(project, service) is Some ==> #[trigger] later.cached(project, service)
                == self.cached(project, service)
    }

    /// The catalog on an open connection, with the files of its service
    /// stores in `database_path`. No store is open yet.
    pub fn new(db: C, database_path: String) -> (kodama: Self)
        ensures
            kodama.wf(),
            *kodama.catalog() == db,
            kodama.directory() == database_path@,
            kodama.store_count() == 0,
            forall|project: Seq<char>, service: Seq<char>|
                (#[trigger] kodama.cached(project, service)) is None,
    {
        Kodama { db, database_path, services: Vec::new(), cache: Vec::new() }
    }

    /// Makes the tables of the catalog, unless they are there.
    pub fn initialize(self) -> (kodama: Result<Self, Error>)
        ensures
            exists|answer: Result<(), SqlError>| #[trigger]
                batch_answer(self.catalog(), schema_text(), answer) && match answer {
                    Ok(_) => kodama == Ok::<Self, Error>(self),
                    Err(error) => kodama == Err::<Self, Error>(Error::Rusqlite(error)),
                },
    {
        let answer = ask_batch(&self.db, schema_sql());
        assert(batch_answer(self.catalog(), schema_text(), answer));
        match answer {
            Ok(_) => Ok(self),
            Err(error) => Err(Error::Rusqlite(error)),
        }
    }

    /// Runs an insert on the catalog and hands back the id of the new row.
    fn create_row(&self, statement: &crate::query::Query, params: &Vec<SqlValue>) -> (result:
        Result<i64, Error>)
        ensures
            row_created(self.catalog(), statement@, values_view(params@), result),
    {
        let outcome = statement.insert(&self.db, params);
        proof {
            let answer = choose|answer: Result<usize, SqlError>| #[trigger]
                execute_answer(self.catalog(), statement.statement(), values_view(params@), answer)
                    && inserted(self.catalog(), answer, outcome);
            assert(execute_answer(self.catalog(), statement@, values_view(params@), answer));
        }
        match outcome {
            Ok(id) => Ok(id),
            Err(error) => Err(Error::Rusqlite(error)),
        }
    }

    /// Runs a lookup on the catalog and hands back the id that it found.
    fn lookup_id(&self, statement: &crate::query::Query, params: &Vec<SqlValue>) -> (found: Result<
        Option<i64>,
        SqlError,
    >)
        ensures
            id_looked_up(self.catalog(), statement@, values_view(params@), found),
    {
        let found = statement.select_maybe::<i64, C>(&self.db, params);
        proof {
            let answer = choose|answer: Result<Vec<Row>, SqlError>| #[trigger]
                query_answer(self.catalog(), statement.statement(), values_view(params@), answer)
                    && found == first_decoded::<i64>(answer);
            assert(query_answer(self.catalog(), statement@, values_view(params@), answer));
        }
        found
    }

    /// Runs a listing on the catalog and hands back the rows that can be read.
    fn list_rows<T: FromRow>(&self, statement: &crate::query::Query, params: &Vec<SqlValue>) -> (result:
        Result<Vec<T>, Error>)
        ensures
            rows_listed::<C, T>(self.catalog(), statement@, values_view(params@), result),
    {
        let outcome = statement.select_many::<T, C>(&self.db, params);
        proof {
            let answer = choose|answer: Result<Vec<Row>, SqlError>| #[trigger]
                query_answer(self.catalog(), statement.statement(), values_view(params@), answer)
                    && all_decoded::<T>(answer, outcome);
            assert(query_answer(self.catalog(), statement@, values_view(params@), answer));
        }
        match outcome {
            Ok(list) => Ok(list),
            Err(error) => Err(Error::Rusqlite(error)),
        }
    }

    /// Adds a project to the catalog and hands back its id. The name is
    /// stored as it is given.
    pub fn create_project(&self, project_name: &str, description: &str) -> (result: Result<
        i64,
        Error,
    >)
        ensures
            row_created(
                self.catalog(),
                project_insert_sql(),
                two_text_params(project_name@, description@),
                result,
            ),
    {
        let statement = project_insert();
        let mut params: Vec<SqlValue> = Vec::new();
        params.push(SqlValue::Text(project_name.to_owned()));
        params.push(SqlValue::Text(description.to_owned()));
        assert(values_view(params@) =~= two_text_params(project_name@, description@));
        self.create_row(&statement, &params)
    }

    /// The projects of the catalog.
    pub fn project_list(&self) -> (result: Result<Vec<ListProject>, Error>)
        ensures
            rows_listed::<C, ListProject>(
                self.catalog(),
                project_listing_sql(),
                Seq::empty(),
                result,
            ),
    {
        let statement = project_listing();
        let params: Vec<SqlValue> = Vec::new();
        assert(values_view(params@) =~= Seq::empty());
        self.list_rows::<ListProject>(&statement, &params)
    }

    /// The id of the project `project_name`. Names are compared as they
    /// stand; a name that the catalog does not hold is `ProjectNotFound`.
    pub fn get_project_id(&self, project_name: &str) -> (result: Result<i64, Error>)
        ensures
            project_id_resolved(self.catalog(), project_name@, result),
    {
        let statement = project_lookup();
        let mut params: Vec<SqlValue> = Vec::new();
        params.push(SqlValue::Text(project_name.to_owned()));
        assert(values_view(params@) =~= text_params(project_name@));
        let found = self.lookup_id(&statement, &params);
        assert(id_looked_up(self.catalog(), project_lookup_sql(), text_params(project_name@), found));
        resolve_project(found)
    }

    /// Adds a service to a project and hands back its id. A project that
    /// the catalog does not hold is `ProjectNotFound`, and nothing is added.
    pub fn create_service(&self, project_name: &str, service_name: &str, description: &str) -> (result:
        Result<i64, Error>)
        ensures
            exists|project: Result<i64, Error>| #[trigger]
                project_id_resolved(self.catalog(), project_name@, project) && match project {
                    Ok(project_id) => row_created(
                        self.catalog(),
                        service_insert_sql(),
                        service_params(project_id, service_name@, description@),
                        result,
                    ),
                    Err(error) => result == Err::<i64, Error>(error),
                },
    {
        let project = self.get_project_id(project_name);
        assert(project_id_resolved(self.catalog(), project_name@, project));
        let project_id = match project {
            Ok(id) => id,
            Err(error) => {
                return Err(error);
            },
        };
        let statement = service_insert();
        let mut params: Vec<SqlValue> = Vec::new();
        params.push(SqlValue::Integer(project_id));
        params.push(SqlValue::Text(service_name.to_owned()));
        params.push(SqlValue::Text(description.to_owned()));
        assert(values_view(params@) =~= service_params(project_id, service_name@, description@));
        self.create_row(&statement, &params)
    }

    /// The services of a project. A project that the catalog does not hold
    /// is `ProjectNotFound`.
    pub fn service_list(&self, project_name: &str) -> (result: Result<Vec<ListService>, Error>)
        ensures
            exists|project: Result<i64, Error>| #[trigger]
                project_id_resolved(self.catalog(), project_name@, project) && match project {
                    Ok(project_id) => rows_listed::<C, ListService>(
                        self.catalog(),
                        service_listing_sql(),
                        id_params(project_id),
                        result,
                    ),
                    Err(error) => result == Err::<Vec<ListService>, Error>(error),
                },
    {
        let project = self.get_project_id(project_name);
        assert(project_id_resolved(self.catalog(), project_name@, project));
        let project_id = match project {
            Ok(id) => id,
            Err(error) => {
                return Err(error);
            },
        };
        let statement = service_listing();
        let mut params: Vec<SqlValue> = Vec::new();
        params.push(SqlValue::Integer(project_id));
        assert(values_view(params@) =~= id_params(project_id));
        self.list_rows::<ListService>(&statement, &params)
    }

    /// The id of the service `service_name` of the project `project_name`.
    /// Under a project that the catalog does not hold the result is
    /// `ProjectNotFound`, whatever the name of the service; under a project
    /// that it holds, a service that it does not hold is `ServiceNotFound`
    /// with the name that was asked for.
    pub fn get_service_id(&self, project_name: &str, service_name: &str) -> (result: Result<
        i64,
        Error,
    >)
        ensures
            service_id_resolved(self.catalog(), project_name@, service_name@, result),
    {
        let statement = project_lookup();
        let mut params: Vec<SqlValue> = Vec::new();
        params.push(SqlValue::Text(project_name.to_owned()));
        assert(values_view(params@) =~= text_params(project_name@));
        let in_catalog = self.lookup_id(&statement, &params);
        match in_catalog {
            Ok(Some(project_id)) => {
                let statement = service_lookup();
                let mut params: Vec<SqlValue> = Vec::new();
                params.push(SqlValue::Integer(project_id));
                params.push(SqlValue::Text(service_name.to_owned()));
                assert(values_view(params@) =~= child_params(project_id, service_name@));
                let under = self.lookup_id(&statement, &params);
                let result = resolve_service(under, service_name);
                assert(service_under_project(in_catalog, under, service_name@, result));
                result
            },
            _ => {
                let result = resolve_project(in_catalog);
                assert(service_under_project(in_catalog, Ok(None), service_name@, result));
                result
            },
        }
    }

    /// The records of a service.
    pub fn record_list(&self, project_name: &str, service_name: &str) -> (result: Result<
        Vec<ListRecord>,
        Error,
    >)
        ensures
            exists|service: Result<i64, Error>| #[trigger]
                service_id_resolved(self.catalog(), project_name@, service_name@, service)
                    && match service {
                    Ok(service_id) => rows_listed::<C, ListRecord>(
                        self.catalog(),
                        record_listing_sql(),
                        id_params(service_id),
                        result,
                    ),
                    Err(error) => result == Err::<Vec<ListRecord>, Error>(error),
                },
    {
        let service = self.get_service_id(project_name, service_name);
        assert(service_id_resolved(self.catalog(), project_name@, service_name@, service));
        let service_id = match service {
            Ok(id) => id,
            Err(error) => {
                return Err(error);
            },
        };
        let statement = record_listing();
        let mut params: Vec<SqlValue> = Vec::new();
        params.push(SqlValue::Integer(service_id));
        assert(values_view(params@) =~= id_params(service_id));
        self.list_rows::<ListRecord>(&statement, &params)
    }

    /// The id of the record `record_name` of the service `service_id`; a
    /// record that the catalog does not hold is `RecordNotFound`.
    pub fn get_record_id(&self, service_id: i64, record_name: &str) -> (result: Result<i64, Error>)
        ensures
            record_id_resolved(self.catalog(), service_id, record_name@, result),
    {
        let found = self.lookup_record(service_id, record_name);
        resolve_record(found)
    }

    /// What the lookup of the record `record_name` of the service
    /// `service_id` finds.
    fn lookup_record(&self, service_id: i64, record_name: &str) -> (found: Result<
        Option<i64>,
        SqlError,
    >)
        ensures
            id_looked_up(
                self.catalog(),
                record_lookup_sql(),
                child_params(service_id, record_name@),
                found,
            ),
    {
        let statement = record_lookup();
        let mut params: Vec<SqlValue> = Vec::new();
        params.push(SqlValue::Integer(service_id));
        params.push(SqlValue::Text(record_name.to_owned()));
        assert(values_view(params@) =~= child_params(service_id, record_name@));
        self.lookup_id(&statement, &params)
    }

    /// The handle that the registry holds for the names, if it holds one.
    fn find_cached(&self, project: &String, service: &String) -> (found: Option<usize>)
        ensures
            found == self.cached(project@, service@),
    {
        let mut i: usize = 0;
        while i < self.cache.len()
            invariant
                i <= self.cache.len(),
                cache_find(self.cache@.take(i as int), project@, service@) is None,
            decreases self.cache.len() - i,
        {
            proof {
                assert(self.cache@.take(i + 1).drop_last() =~= self.cache@.take(i as int));
            }
            let entry = &self.cache[i];
            if entry.project == *project && entry.service == *service {
                proof {
                    lemma_cache_find_stays(self.cache@, i + 1, project@, service@);
                }
                return Some(entry.handle);
            }
            i = i + 1;
        }
        assert(self.cache@.take(self.cache.len() as int) =~= self.cache@);
        None
    }

    /// The store behind a handle, if the handle is one of the registry.
    pub fn service(&self, handle: usize) -> (store: Option<&Service<C>>)
        ensures
            match store {
                Some(held) => handle < self.store_count() && *held == self.store(handle),
                None => handle >= self.store_count(),
            },
    {
        if handle < self.services.len() {
            Some(&self.services[handle])
        } else {
            None
        }
    }

    /// The handle of the store of the service `id`, if that store is open.
    pub fn find_store(&self, id: i64) -> (found: Option<usize>)
        ensures
            found == self.opened(id),
            found matches Some(handle) ==> handle < self.store_count() && self.store(
                handle,
            ).service_id() == id,
    {
        let mut i: usize = 0;
        while i < self.services.len()
            invariant
                i <= self.services.len(),
                store_find(self.services@.take(i as int), id) is None,
            decreases self.services.len() - i,
        {
            proof {
                assert(self.services@.take(i + 1).drop_last() =~= self.services@.take(i as int));
            }
            if self.services[i].id() == id {
                proof {
                    lemma_store_find_stays(self.services@, i + 1, id);
                }
                return Some(i);
            }
            i = i + 1;
        }
        assert(self.services@.take(self.services.len() as int) =~= self.services@);
        None
    }
}

/// Whether the id `record_id` is what a write to the record `name` of the
/// service behind `store` goes to, where `found` is what the lookup of the
/// record found: a record of the catalog is reused as it is; for a new one
/// the catalog row is inserted, and then its table is made in the store.
pub open spec fn record_provisioned<C: DatabaseConnection>(
    catalog: &C,
    store: Service<C>,
    name: Seq<char>,
    found: Option<i64>,
    record_id: i64,
) -> bool {
    match Provisioning::plan_for(found) {
        Provisioning::Reuse(id) => record_id == id,
        Provisioning::Create => row_created(
            catalog,
            record_insert_sql(),
            child_params(store.service_id(), name),
            Ok(record_id),
        ) && exists|answer: Result<usize, SqlError>| #[trigger]
            execute_answer(
                store.backend(),
                define_record_sql(record_id as int),
                Seq::empty(),
                answer,
            ) && answer is Ok,
    }
}

impl<C: DatabaseOpen> Kodama<C> {
    /// Whether `later` is this registry after the names were entered for
    /// the store behind `handle`: the names now lead to the handle, every
    /// other pair of names leads where it led, and nothing that was kept is
    /// dropped or replaced.
    pub open spec fn entered_in(
        &self,
        later: &Self,
        project: Seq<char>,
        service: Seq<char>,
        handle: usize,
    ) -> bool {
        &&& self.kept_in(later)
        &&& handle < later.store_count()
        &&& later.cached(project, service) == Some(handle)
        &&& forall|p: Seq<char>, s: Seq<char>|
            (p != project || s != service) ==> #[trigger] later.cached(p, s) == self.cached(p, s)
    }

    /// Whether `result` and `later` are what entering names that the
    /// registry does not keep gives, where `resolved` is what resolving the
    /// service gave. A service that is not resolved is the result, and the
    /// registry stays as it is. A store that is open under other names is
    /// entered under these too. Else the store is opened: a failure is the
    /// result and the registry stays as it is; the opened store is kept as
    /// the newest and entered.
    pub open spec fn store_entered(
        &self,
        later: &Self,
        project: Seq<char>,
        service: Seq<char>,
        resolved: Result<i64, Error>,
        result: Result<usize, Error>,
    ) -> bool {
        match resolved {
            Err(error) => result == Err::<usize, Error>(error) && *later == *self,
            Ok(id) => match self.opened(id) {
                Some(handle) => result == Ok::<usize, Error>(handle) && later.store_count()
                    == self.store_count() && self.entered_in(later, project, service, handle),
                None => exists|opened: Result<Service<C>, Error>| #[trigger]
                    store_opened(self.directory(), id, opened) && match opened {
                        Err(error) => result == Err::<usize, Error>(error) && *later == *self,
                        Ok(store) => result == Ok::<usize, Error>(self.store_count() as usize)
                            && later.store_count() == self.store_count() + 1 && later.store(
                            self.store_count() as usize,
                        ) == store && self.entered_in(
                            later,
                            project,
                            service,
                            self.store_count() as usize,
                        ),
                    },
            },
        }
    }

    /// Whether `result` and `later` are what asking for the store of a
    /// service gives. The store that the registry keeps for the names is
    /// handed back and nothing changes; for names that it does not keep
    /// the service is resolved, and the store is entered by what came of it.
    pub open spec fn store_got(
        &self,
        later: &Self,
        project: Seq<char>,
        service: Seq<char>,
        result: Result<usize, Error>,
    ) -> bool {
        match self.cached(project, service) {
            Some(handle) => result == Ok::<usize, Error>(handle) && *later == *self,
            None => exists|resolved: Result<i64, Error>| #[trigger]
                service_id_resolved(self.catalog(), project, service, resolved)
                    && self.store_entered(later, project, service, resolved, result),
        }
    }

    /// Whether `result` is what carrying out a plan for the record `record`
    /// in the store behind `handle` gives. A record that is reused is the
    /// result as it is. For a new one the catalog row is inserted, and then
    /// its table is made under the id that the row was given; the first
    /// failure is the result.
    pub open spec fn record_planned(
        &self,
        handle: usize,
        record: Seq<char>,
        plan: Provisioning,
        result: Result<(usize, i64), Error>,
    ) -> bool {
        match plan {
            Provisioning::Reuse(id) => result == Ok::<(usize, i64), Error>((handle, id)),
            Provisioning::Create => exists|created: Result<i64, Error>| #[trigger]
                row_created(
                    self.catalog(),
                    record_insert_sql(),
                    child_params(self.store(handle).service_id(), record),
                    created,
                ) && match created {
                    Err(error) => result == Err::<(usize, i64), Error>(error),
                    Ok(id) => exists|defined: Result<(), Error>| #[trigger]
                        table_defined(self.store(handle).backend(), id, defined) && match defined {
                            Err(error) => result == Err::<(usize, i64), Error>(error),
                            Ok(_) => result == Ok::<(usize, i64), Error>((handle, id)),
                        },
                },
        }
    }

    /// Whether `result` is what finding the table of the record `record`
    /// in the store behind `handle` gives: the record is looked up in the
    /// catalog by the id of the service and its name; a failure of the
    /// lookup is the result; else the plan for what was found is carried out.
    pub open spec fn record_table_got(
        &self,
        handle: usize,
        record: Seq<char>,
        result: Result<(usize, i64), Error>,
    ) -> bool {
        exists|found: Result<Option<i64>, SqlError>| #[trigger]
            id_looked_up(
                self.catalog(),
                record_lookup_sql(),
                child_params(self.store(handle).service_id(), record),
                found,
            ) && match found {
                Err(error) => result == Err::<(usize, i64), Error>(Error::Rusqlite(error)),
                Ok(in_catalog) => self.record_planned(
                    handle,
                    record,
                    Provisioning::plan_for(in_catalog),
                    result,
                ),
            }
    }

    /// Whether `result` and `later` are what reaching the table of a record
    /// by names gives: the store of the service is asked for; without it its
    /// failure is the result; in it the table of the record is found.
    pub open spec fn record_table_reached(
        &self,
        later: &Self,
        project: Seq<char>,
        service: Seq<char>,
        record: Seq<char>,
        result: Result<(usize, i64), Error>,
    ) -> bool {
        exists|got: Result<usize, Error>| #[trigger]
            self.store_got(later, project, service, got) && match got {
                Err(error) => result == Err::<(usize, i64), Error>(error),
                Ok(handle) => later.record_table_got(handle, record, result),
            }
    }

    /// Whether `done` and `later` are what adding one observation by names
    /// gives: the table of the record is reached, the record being
    /// provisioned on its first write; without it the failure is the result;
    /// else the observation is stored in the table of that very record.
    pub open spec fn record_added(
        &self,
        later: &Self,
        project: Seq<char>,
        service: Seq<char>,
        record: Seq<char>,
        group_by: Seq<char>,
        timestamp: Option<Timestamp>,
        execution_time: u64,
        done: Result<(), Error>,
    ) -> bool {
        exists|target: Result<(usize, i64), Error>| #[trigger]
            self.record_table_reached(later, project, service, record, target) && match target {
                Err(error) => done == Err::<(), Error>(error),
                Ok(pair) => later.writes_to(project, service, record, pair.0, pair.1)
                    && observation_stored(
                    later.store(pair.0).backend(),
                    pair.1,
                    timestamp,
                    group_by,
                    execution_time,
                    done,
                ),
            }
    }

    /// Whether `added` and `later` are what taking a record off the wire
    /// gives. The record of an operation that failed is passed over: the
    /// result is `false` and nothing changes. Any other is added with its
    /// own names, group, timestamp and execution time: the result is `true`
    /// where that succeeded, else its failure.
    pub open spec fn record_handled(
        &self,
        later: &Self,
        record: Record,
        added: Result<bool, Error>,
    ) -> bool {
        if !record.is_kept() {
            added == Ok::<bool, Error>(false) && *later == *self
        } else {
            exists|done: Result<(), Error>| #[trigger]
                self.record_added(
                    later,
                    record.project_name@,
                    record.service_name@,
                    record.record_name@,
                    record.group_by@,
                    record.timestamp,
                    record.execution_time_us,
                    done,
                ) && match done {
                    Ok(_) => added == Ok::<bool, Error>(true),
                    Err(error) => added == Err::<bool, Error>(error),
                }
        }
    }

    /// Whether `entries` and `later` are what reading the statistics of a
    /// record by names gives: the store of the service is asked for, the
    /// record is resolved in the catalog, and its statistics are read from
    /// the store; the first failure is the result, and a record that the
    /// catalog does not hold is `RecordNotFound`.
    pub open spec fn entries_got(
        &self,
        later: &Self,
        project: Seq<char>,
        service: Seq<char>,
        record: Seq<char>,
        entries: Result<Vec<DataEntry>, Error>,
    ) -> bool {
        exists|got: Result<usize, Error>| #[trigger]
            self.store_got(later, project, service, got) && match got {
                Err(error) => entries == Err::<Vec<DataEntry>, Error>(error),
                Ok(handle) => exists|resolved: Result<i64, Error>| #[trigger]
                    record_id_resolved(
                        later.catalog(),
                        later.store(handle).service_id(),
                        record,
                        resolved,
                    ) && match resolved {
                        Err(error) => entries == Err::<Vec<DataEntry>, Error>(error),
                        Ok(id) => entries_read(later.store(handle).backend(), id, entries),
                    },
            }
    }

    /// Opens the catalog in the directory `path` and switches the checking
    /// of foreign keys on. No store is open yet.
    pub fn instance(path: String) -> (kodama: Result<Self, Error>)
        ensures
            exists|opened: Result<C, SqlError>| #[trigger]
                opened_with_foreign_keys(store_file(path@, "kodama.db"@), opened) && match opened {
                    Err(error) => kodama == Err::<Self, Error>(Error::Rusqlite(error)),
                    Ok(db) => kodama matches Ok(made) && *made.catalog() == db,
                },
            kodama matches Ok(made) ==> made.wf() && made.directory() == path@
                && made.store_count() == 0 && forall|project: Seq<char>, service: Seq<char>|
                (#[trigger] made.cached(project, service)) is None,
    {
        let file = store_path(path.as_str(), "kodama.db");
        let opened = open_with_foreign_keys::<C>(file.as_str());
        assert(opened_with_foreign_keys(store_file(path@, "kodama.db"@), opened));
        match opened {
            Ok(db) => Ok(Self::new(db, path)),
            Err(error) => Err(Error::Rusqlite(error)),
        }
    }

    /// The handle of the store of a service. The store that the registry
    /// keeps for the names is handed back as it is; else the service is
    /// resolved, its store is opened unless it is open under other names,
    /// and the names are entered. On failure the registry is as it was.
    pub fn get_service(&mut self, project_name: &str, service_name: &str) -> (result: Result<
        usize,
        Error,
    >)
        requires
            old(self).wf(),
        ensures
            final(self).wf(),
            old(self).kept_in(final(self)),
            old(self).store_got(final(self), project_name@, service_name@, result),
            result is Err ==> *final(self) == *old(self),
            result matches Ok(handle) ==> handle < final(self).store_count() && final(self).cached(
                project_name@,
                service_name@,
            ) == Some(handle),
    {
        let project = project_name.to_owned();
        let service = service_name.to_owned();
        match self.find_cached(&project, &service) {
            Some(handle) => {
                proof {
                    lemma_cached_is_open(self.cache@, project@, service@, self.services.len() as nat);
                }
                return Ok(handle);
            },
            None => {},
        }
        let resolved = self.get_service_id(project_name, service_name);
        let service_id = match resolved {
            Ok(id) => id,
            Err(error) => {
                assert(old(self).store_entered(
                    self,
                    project_name@,
                    service_name@,
                    resolved,
                    Err::<usize, Error>(error),
                ));
                return Err(error);
            },
        };
        let ghost mut opened: Result<Service<C>, Error> = Err(Error::ApiError(ApiError::RecordNotFound));
        let handle = match self.find_store(service_id) {
            Some(handle) => handle,
            None => {
                let made = Service::open(&self.database_path, service_id);
                proof {
                    opened = made;
                }
                let store = match made {
                    Ok(store) => store,
                    Err(error) => {
                        assert(store_opened(old(self).directory(), service_id, made));
                        assert(old(self).store_entered(
                            self,
                            project_name@,
                            service_name@,
                            resolved,
                            Err::<usize, Error>(error),
                        ));
                        return Err(error);
                    },
                };
                self.services.push(store);
                self.services.len() - 1
            },
        };
        let ghost before = self.cache@;
        self.cache.push(CacheEntry { project, service, handle });
        proof {
            assert(self.cache@.drop_last() =~= before);
            assert forall|p: Seq<char>, s: Seq<char>| old(self).cached(p, s) is Some implies (
            #[trigger] self.cached(p, s)) == old(self).cached(p, s) by {}
            assert forall|p: Seq<char>, s: Seq<char>|
                (p != project_name@ || s != service_name@) implies #[trigger] self.cached(p, s)
                == old(self).cached(p, s) by {}
            assert forall|i: int| 0 <= i < self.cache.len() implies (#[trigger] self.cache[i]).handle
                < self.services.len() by {
                if i < before.len() {
                    assert(self.cache[i] == before[i]);
                }
            }
            assert(old(self).entered_in(self, project_name@, service_name@, handle));
            if old(self).opened(service_id) is None {
                assert(store_opened(old(self).directory(), service_id, opened));
                assert(opened is Ok);
                assert(self.store(handle) == opened->Ok_0);
            }
            assert(old(self).store_entered(
                self,
                project_name@,
                service_name@,
                resolved,
                Ok::<usize, Error>(handle),
            ));
        }
        Ok(handle)
    }

    /// The table of the record `record_name` in the store behind `handle`:
    /// the record is looked up, and provisioned where the catalog does not
    /// hold it yet.
    fn record_table(&self, handle: usize, record_name: &str) -> (result: Result<(usize, i64), Error>)
        requires
            handle < self.store_count(),
        ensures
            self.record_table_got(handle, record_name@, result),
            result matches Ok(pair) ==> pair.0 == handle && exists|
                found: Result<Option<i64>, SqlError>,
            | #[trigger]
                id_looked_up(
                    self.catalog(),
                    record_lookup_sql(),
                    child_params(self.store(handle).service_id(), record_name@),
                    found,
                ) && found is Ok && record_provisioned(
                    self.catalog(),
                    self.store(handle),
                    record_name@,
                    found->Ok_0,
                    pair.1,
                ),
    {
        let service_id = self.services[handle].id();
        let found = self.lookup_record(service_id, record_name);
        assert(id_looked_up(
            self.catalog(),
            record_lookup_sql(),
            child_params(self.store(handle).service_id(), record_name@),
            found,
        ));
        let in_catalog = match found {
            Ok(in_catalog) => in_catalog,
            Err(error) => {
                return Err(Error::Rusqlite(error));
            },
        };
        match Provisioning::plan(in_catalog) {
            Provisioning::Reuse(record_id) => {
                assert(self.record_planned(
                    handle,
                    record_name@,
                    Provisioning::plan_for(in_catalog),
                    Ok::<(usize, i64), Error>((handle, record_id)),
                ));
                assert(record_provisioned(
                    self.catalog(),
                    self.store(handle),
                    record_name@,
                    in_catalog,
                    record_id,
                ));
                Ok((handle, record_id))
            },
            Provisioning::Create => {
                let statement = record_insert();
                let mut params: Vec<SqlValue> = Vec::new();
                params.push(SqlValue::Integer(service_id));
                params.push(SqlValue::Text(record_name.to_owned()));
                assert(values_view(params@) =~= child_params(service_id, record_name@));
                let created = self.create_row(&statement, &params);
                assert(row_created(
                    self.catalog(),
                    record_insert_sql(),
                    child_params(self.store(handle).service_id(), record_name@),
                    created,
                ));
                let record_id = match created {
                    Ok(id) => id,
                    Err(error) => {
                        assert(self.record_planned(
                            handle,
                            record_name@,
                            Provisioning::Create,
                            Err::<(usize, i64), Error>(error),
                        ));
                        return Err(error);
                    },
                };
                let defined = self.services[handle].define_record(record_id);
                assert(table_defined(self.store(handle).backend(), record_id, defined));
                match defined {
                    Ok(_) => {
                        proof {
                            let answer = choose|answer: Result<usize, SqlError>| #[trigger]
                                execute_answer(
                                    self.store(handle).backend(),
                                    define_record_sql(record_id as int),
                                    Seq::empty(),
                                    answer,
                                ) && defined == stored(answer);
                            assert(answer is Ok);
                            assert(record_provisioned(
                                self.catalog(),
                                self.store(handle),
                                record_name@,
                                in_catalog,
                                record_id,
                            ));
                            assert(self.record_planned(
                                handle,
                                record_name@,
                                Provisioning::Create,
                                Ok::<(usize, i64), Error>((handle, record_id)),
                            ));
                        }
                        Ok((handle, record_id))
                    },
                    Err(error) => {
                        assert(self.record_planned(
                            handle,
                            record_name@,
                            Provisioning::Create,
                            Err::<(usize, i64), Error>(error),
                        ));
                        Err(error)
                    },
                }
            },
        }
    }

    /// The store and the id that a write to a record goes to. A record that
    /// the catalog does not hold yet is provisioned: its catalog row is
    /// inserted, and then its table is made.
    pub fn create_or_get_record_table(
        &mut self,
        project_name: &str,
        service_name: &str,
        record_name: &str,
    ) -> (result: Result<(usize, i64), Error>)
        requires
            old(self).wf(),
        ensures
            final(self).wf(),
            old(self).kept_in(final(self)),
            old(self).record_table_reached(
                final(self),
                project_name@,
                service_name@,
                record_name@,
                result,
            ),
            result matches Ok((handle, record_id)) ==> final(self).writes_to(
                project_name@,
                service_name@,
                record_name@,
                handle,
                record_id,
            ),
    {
        let got = self.get_service(project_name, service_name);
        assert(old(self).store_got(self, project_name@, service_name@, got));
        match got {
            Ok(handle) => self.record_table(handle, record_name),
            Err(error) => Err(error),
        }
    }

    /// Adds one observation to a record of a service, and provisions the
    /// record on its first write.
    pub fn add_record(
        &mut self,
        project_name: &str,
        service_name: &str,
        record_name: &str,
        group_by: &str,
        timestamp: Option<Timestamp>,
        execution_time: u64,
    ) -> (done: Result<(), Error>)
        requires
            old(self).wf(),
        ensures
            final(self).wf(),
            old(self).kept_in(final(self)),
            old(self).record_added(
                final(self),
                project_name@,
                service_name@,
                record_name@,
                group_by@,
                timestamp,
                execution_time,
                done,
            ),
    {
        let target = self.create_or_get_record_table(project_name, service_name, record_name);
        assert(old(self).record_table_reached(
            self,
            project_name@,
            service_name@,
            record_name@,
            target,
        ));
        match target {
            Ok(pair) => self.services[pair.0].add_record(
                pair.1,
                timestamp,
                group_by,
                execution_time,
            ),
            Err(error) => Err(error),
        }
    }

    /// Takes one record off the wire: the observation of an operation that
    /// did not fail is added to its record, any other is passed over. The
    /// result says whether the observation was added.
    pub fn handle_record(&mut self, record: &Record) -> (added: Result<bool, Error>)
        requires
            old(self).wf(),
        ensures
            final(self).wf(),
            old(self).kept_in(final(self)),
            old(self).record_handled(final(self), *record, added),
    {
        if !record.kept() {
            return Ok(false);
        }
        let done = self.add_record(
            record.project_name.as_str(),
            record.service_name.as_str(),
            record.record_name.as_str(),
            record.group_by.as_str(),
            record.timestamp,
            record.execution_time_us,
        );
        assert(old(self).record_added(
            self,
            record.project_name@,
            record.service_name@,
            record.record_name@,
            record.group_by@,
            record.timestamp,
            record.execution_time_us,
            done,
        ));
        match done {
            Ok(_) => Ok(true),
            Err(error) => Err(error),
        }
    }

    /// The statistics of each group of a record. A record that the catalog
    /// does not hold is `RecordNotFound`.
    pub fn record_entries(&mut self, project_name: &str, service_name: &str, record_name: &str) -> (entries:
        Result<Vec<DataEntry>, Error>)
        requires
            old(self).wf(),
        ensures
            final(self).wf(),
            old(self).kept_in(final(self)),
            old(self).entries_got(final(self), project_name@, service_name@, record_name@, entries),
    {
        let got = self.get_service(project_name, service_name);
        assert(old(self).store_got(self, project_name@, service_name@, got));
        let handle = match got {
            Ok(handle) => handle,
            Err(error) => {
                return Err(error);
            },
        };
        let service_id = self.services[handle].id();
        let resolved = self.get_record_id(service_id, record_name);
        assert(record_id_resolved(
            self.catalog(),
            self.store(handle).service_id(),
            record_name@,
            resolved,
        ));
        match resolved {
            Ok(id) => self.services[handle].record_entries(id),
            Err(error) => Err(error),
        }
    }
}

/// The plan that is carried out is the plan of the catalog model: where
/// the lookup finds what the model `catalog` holds, a write that succeeds
/// goes to the id that the model names for it, a record that the model
/// holds is reused under its id with the model unchanged, and a record that
/// it does not hold is in the model afterwards, with its table.
pub proof fn lemma_provisioning_follows_the_model<C: DatabaseOpen>(
    kodama: Kodama<C>,
    catalog: RecordCatalog,
    handle: usize,
    record: Seq<char>,
    record_id: i64,
)
    requires
        kodama.record_planned(
            handle,
            record,
            Provisioning::plan_for(
                catalog.find(kodama.store(handle).service_id() as int, record),
            ),
            Ok((handle, record_id)),
        ),
    ensures
        ({
            let service = kodama.store(handle).service_id() as int;
            let (after, id) = catalog.provision(service, record, record_id);
            &&& id == record_id
            &&& after.find(service, record) == Some(record_id)
            &&& catalog.find(service, record) is Some ==> after == catalog
            &&& catalog.find(service, record) is None ==> after.tables.contains(record_id as int)
        }),
{
}

/// An entry that is found holds the handle of an open store.
proof fn lemma_cached_is_open(
    entries: Seq<CacheEntry>,
    project: Seq<char>,
    service: Seq<char>,
    stores: nat,
)
    requires
        forall|i: int| 0 <= i < entries.len() ==> (#[trigger] entries[i]).handle < stores,
        cache_find(entries, project, service) is Some,
    ensures
        cache_find(entries, project, service)->Some_0 < stores,
    decreases entries.len(),
{
    if entries.len() > 0 {
        if cache_find(entries.drop_last(), project, service) is Some {
            assert forall|i: int| 0 <= i < entries.drop_last().len() implies (
            #[trigger] entries.drop_last()[i]).handle < stores by {
                assert(entries.drop_last()[i] == entries[i]);
            }
            lemma_cached_is_open(entries.drop_last(), project, service, stores);
        } else {
            assert(entries.last() == entries[entries.len() - 1]);
        }
    }
}

/// What was found among the first stores is found among all of them.
proof fn lemma_store_find_stays<C: DatabaseConnection>(stores: Seq<Service<C>>, upto: int, id: i64)
    requires
        0 <= upto <= stores.len(),
        store_find(stores.take(upto), id) is Some,
    ensures
        store_find(stores, id) == store_find(stores.take(upto), id),
    decreases stores.len() - upto,
{
    if upto < stores.len() {
        assert(stores.take(upto + 1).drop_last() =~= stores.take(upto));
        lemma_store_find_stays(stores, upto + 1, id);
    } else {
        assert(stores.take(upto) =~= stores);
    }
}

} // verus!
