//! The process table: which executions have a termination handle on record, and how the
//! finished ones ended.
//!
//! Both tables are concurrent collections. A process table owns its two collections and
//! hands out no reference to them, so that what they hold changes only through the
//! table's own operations.

use dashmap::DashMap;
use dashmap::DashSet;
use vstd::prelude::*;

use crate::error::Error;
use crate::error::ErrorKind;
use crate::pid::pid_text;
use crate::pid::MacroPID;
use crate::status::optional_status;
use crate::status::ExitStatus;
use crate::status::ExitStatusView;

verus! {

/// `dashmap::DashMap`, whose inside the verifier does not see.
#[verifier::external_type_specification]
#[verifier::external_body]
#[verifier::reject_recursive_types(K)]
#[verifier::reject_recursive_types(V)]
#[verifier::reject_recursive_types(S)]
pub struct ExDashMap<K, V, S>(DashMap<K, V, S>);

/// `dashmap::DashSet`, whose inside the verifier does not see.
#[verifier::external_type_specification]
#[verifier::external_body]
#[verifier::reject_recursive_types(K)]
#[verifier::reject_recursive_types(S)]
pub struct ExDashSet<K, S>(DashSet<K, S>);

/// The raw identifiers held by a live set.
pub uninterp spec fn live_pids(set: DashSet<usize>) -> Set<usize>;

/// The entries held by an exit table, keyed by raw identifier.
pub uninterp spec fn exit_entries(table: DashMap<usize, ExitStatus>) -> Map<usize, ExitStatusView>;

/// `DashSet::new`: a set without members.
#[verifier::external_body]
fn live_set_new() -> (set: DashSet<usize>)
    ensures
        live_pids(set) == Set::<usize>::empty(),
{
    DashSet::new()
}

/// `DashSet::insert`: `pid` becomes a member and the other members stay.
#[verifier::external_body]
fn live_set_insert(set: &mut DashSet<usize>, pid: usize)
    ensures
        live_pids(*final(set)) == live_pids(*old(set)).insert(pid),
{
    set.insert(pid);
}

/// `DashSet::contains`: whether `pid` is a member.
#[verifier::external_body]
fn live_set_contains(set: &DashSet<usize>, pid: usize) -> (member: bool)
    ensures
        member == live_pids(*set).contains(pid),
{
    set.contains(&pid)
}

/// `DashMap::new`: a table without entries.
#[verifier::external_body]
fn exit_table_new() -> (table: DashMap<usize, ExitStatus>)
    ensures
        exit_entries(table).dom() == Set::<usize>::empty(),
{
    DashMap::new()
}

/// `DashMap::insert`: the entry for `pid` becomes `status` and the other entries stay.
#[verifier::external_body]
fn exit_table_insert(table: &mut DashMap<usize, ExitStatus>, pid: usize, status: ExitStatus)
    ensures
        exit_entries(*final(table)) == exit_entries(*old(table)).insert(pid, status@),
{
    table.insert(pid, status);
}

/// `DashMap::get`: a copy of the entry for `pid`, if there is one.
#[verifier::external_body]
fn exit_table_get(table: &DashMap<usize, ExitStatus>, pid: usize) -> (found: Option<ExitStatus>)
    ensures
        found is Some <==> exit_entries(*table).contains_key(pid),
        found matches Some(status) ==> status@ == exit_entries(*table)[pid],
{
    table.get(&pid).map(|entry| entry.value().clone())
}

/// The message of the error for an identifier without a termination handle.
pub open spec fn not_found_message(pid: MacroPID) -> Seq<char> {
    "Macro with pid "@ + pid_text(pid) + " not found"@
}

/// The exit table after an attempt to record `status` for `pid`: the first status recorded
/// for an identifier stays.
pub open spec fn with_exit(
    exits: Map<usize, ExitStatusView>,
    pid: usize,
    status: ExitStatusView,
) -> Map<usize, ExitStatusView> {
    if exits.contains_key(pid) {
        exits
    } else {
        exits.insert(pid, status)
    }
}

/// Registry of executions, keyed by process identifier.
pub struct ProcessTable {
    live: DashSet<usize>,
    exits: DashMap<usize, ExitStatus>,
}

impl ProcessTable {
    /// The identifiers with a termination handle on record.
    pub closed spec fn live(&self) -> Set<usize> {
        live_pids(self.live)
    }

    /// The recorded exit statuses.
    pub closed spec fn exits(&self) -> Map<usize, ExitStatusView> {
        exit_entries(self.exits)
    }

    /// A table without entries.
    pub fn new() -> (table: ProcessTable)
        ensures
            table.live() == Set::<usize>::empty(),
            table.exits() == Map::<usize, ExitStatusView>::empty(),
    {
        let table = ProcessTable { live: live_set_new(), exits: exit_table_new() };
        assert(table.exits() =~= Map::<usize, ExitStatusView>::empty());
        table
    }

    /// Records that the termination handle of `pid` is available.
    pub fn insert_live(&mut self, pid: MacroPID)
        ensures
            final(self).live() == old(self).live().insert(pid.0),
            final(self).exits() == old(self).exits(),
    {
        live_set_insert(&mut self.live, pid.0);
    }

    /// Looks up the termination handle of `pid`. `Ok` tells the caller to invoke it;
    /// without a handle on record the answer is a `NotFound` error.
    pub fn terminate(&self, pid: MacroPID) -> (answer: Result<(), Error>)
        ensures
            answer is Ok <==> self.live().contains(pid.0),
            answer matches Err(e) ==> e@.kind == ErrorKind::NotFound && e@.source
                == not_found_message(pid),
    {
        if live_set_contains(&self.live, pid.0) {
            Ok(())
        } else {
            let source: String = String::from_str("Macro with pid ").concat(
                pid.to_string().as_str(),
            ).concat(" not found");
            Err(Error { kind: ErrorKind::NotFound, source })
        }
    }

    /// Records `status` as the exit status of `pid` unless one is already recorded.
    pub fn record_exit(&mut self, pid: MacroPID, status: ExitStatus)
        ensures
            final(self).exits() == with_exit(old(self).exits(), pid.0, status@),
            final(self).live() == old(self).live(),
    {
        if exit_table_get(&self.exits, pid.0).is_none() {
            exit_table_insert(&mut self.exits, pid.0, status);
        }
    }

    /// The recorded exit status of `pid`; `None` while it has not exited.
    pub fn get_exit(&self, pid: MacroPID) -> (status: Option<ExitStatus>)
        ensures
            optional_status(status) == self.exits().get(pid.0),
    {
        exit_table_get(&self.exits, pid.0)
    }
}

} // verus!
