//! Provisioning of a record on its first write: the decision, and what it
//! does to the catalog.

use vstd::prelude::*;

verus! {

/// What the first step of a write to a record decides, from what the
/// lookup of the record found.
#[derive(Clone, Copy, Debug, PartialEq, Eq, Structural)]
pub enum Provisioning {
    /// The record is in the catalog under this id: nothing is made.
    Reuse(i64),
    /// The record is new: its catalog row is inserted, then its table is made.
    Create,
}

impl Provisioning {
    /// The decision for what the lookup found.
    pub open spec fn plan_for(found: Option<i64>) -> Provisioning {
        match found {
            Some(id) => Provisioning::Reuse(id),
            None => Provisioning::Create,
        }
    }

    /// The decision for what the lookup found.
    pub fn plan(found: Option<i64>) -> (plan: Provisioning)
        ensures
            plan == Self::plan_for(found),
    {
        match found {
            Some(id) => Provisioning::Reuse(id),
            None => Provisioning::Create,
        }
    }
}

/// The catalog as far as provisioning reads and changes it: the id of each
/// record by its service and its name, and the ids whose table exists.
pub struct RecordCatalog {
    pub rows: Map<(int, Seq<char>), int>,
    pub tables: Set<int>,
}

impl RecordCatalog {
    /// What the lookup of the record `name` of `service` finds.
    pub open spec fn find(self, service: int, name: Seq<char>) -> Option<i64> {
        if self.rows.dom().contains((service, name)) {
            Some(self.rows[(service, name)] as i64)
        } else {
            None
        }
    }

    /// Whether every id of the catalog is one that a row can hold.
    pub open spec fn in_range(self) -> bool {
        forall|key: (int, Seq<char>)| #[trigger]
            self.rows.dom().contains(key) ==> i64::MIN <= self.rows[key] <= i64::MAX
    }

    /// The catalog after a write to the record `name` of `service`, and the
    /// id that the write goes to. `fresh` is the id that the backend gives
    /// to the catalog row if one is inserted.
    pub open spec fn provision(self, service: int, name: Seq<char>, fresh: i64) -> (
        RecordCatalog,
        i64,
    ) {
        match Provisioning::plan_for(self.find(service, name)) {
            Provisioning::Reuse(id) => (self, id),
            Provisioning::Create => (
                RecordCatalog {
                    rows: self.rows.insert((service, name), fresh as int),
                    tables: self.tables.insert(fresh as int),
                },
                fresh,
            ),
        }
    }
}

/// The first write to a record that the catalog does not hold makes both
/// the catalog row and the table of the record, under the id that the
/// backend gave.
pub proof fn lemma_first_write_provisions(
    catalog: RecordCatalog,
    service: int,
    name: Seq<char>,
    fresh: i64,
)
    requires
        catalog.find(service, name) is None,
    ensures
        ({
            let (after, id) = catalog.provision(service, name, fresh);
            &&& id == fresh
            &&& after.find(service, name) == Some(fresh)
            &&& after.tables.contains(fresh as int)
        }),
{
}

/// A repeated write to the same record reuses what the first write made:
/// it goes to the same id and leaves the catalog as it is, whatever id the
/// backend would give to a new row.
pub proof fn lemma_provision_is_idempotent(
    catalog: RecordCatalog,
    service: int,
    name: Seq<char>,
    first: i64,
    second: i64,
)
    requires
        catalog.in_range(),
    ensures
        ({
            let (once, id) = catalog.provision(service, name, first);
            once.provision(service, name, second) == (once, id)
        }),
{
}

/// A write to one record leaves every other record of the catalog alone.
pub proof fn lemma_provision_keeps_others(
    catalog: RecordCatalog,
    service: int,
    name: Seq<char>,
    fresh: i64,
    other_service: int,
    other_name: Seq<char>,
)
    requires
        (other_service, other_name) != (service, name),
    ensures
        catalog.provision(service, name, fresh).0.find(other_service, other_name) == catalog.find(
            other_service,
            other_name,
        ),
{
}

} // verus!
