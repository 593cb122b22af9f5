//! The database's place in the storage directory, its schema versions, and
//! how stored values are read back.
use vstd::prelude::*;

use crate::models::{stored_counter, stored_counter_spec};
use crate::paths::{join_path, path_join};

verus! {

/// The database file inside storage directory `storage_path`.
pub open spec fn database_path_spec(storage_path: Seq<char>) -> Seq<char> {
    path_join(storage_path, "netwatch.sqlite"@)
}

/// The database file inside storage directory `storage_path`.
pub fn database_path(storage_path: &str) -> (r: String)
    ensures
        r@ == database_path_spec(storage_path@),
{
    proof {
        reveal_strlit("netwatch.sqlite");
    }
    join_path(storage_path, "netwatch.sqlite")
}

/// The first schema version not yet applied to a database at version
/// `current`.
pub open spec fn first_pending(current: int) -> int {
    if current < 0 {
        1
    } else {
        current + 1
    }
}

/// The schema versions to apply, in order, to a database at version
/// `current` when migrations `1..=available` exist: those above `current`.
pub open spec fn pending_spec(current: int, available: int) -> Seq<i32> {
    let f = first_pending(current);
    if f > available {
        Seq::empty()
    } else {
        Seq::new((available - f + 1) as nat, |k: int| (f + k) as i32)
    }
}

/// The schema version of a database at version `current` once `pending` has
/// been applied.
pub open spec fn version_after(current: int, pending: Seq<i32>) -> int {
    if pending.len() > 0 {
        pending.last() as int
    } else {
        current
    }
}

/// The schema versions to apply, in order, to a database at version
/// `current_version` when migrations `1..=available` exist.
pub fn pending_migrations(current_version: i32, available: usize) -> (r: Vec<i32>)
    requires
        available < i32::MAX,
    ensures
        r@ == pending_spec(current_version as int, available as int),
{
    let mut out: Vec<i32> = Vec::new();
    let mut i: usize = 0;
    assert(pending_spec(current_version as int, 0) =~= Seq::<i32>::empty());
    while i < available
        invariant
            i <= available < i32::MAX,
            out@ == pending_spec(current_version as int, i as int),
        decreases available - i,
    {
        let version = (i + 1) as i32;
        let ghost f = first_pending(current_version as int);
        if version > current_version {
            out.push(version);
            proof {
                if f > i {
                    assert(pending_spec(current_version as int, i + 1) =~= seq![version]);
                } else {
                    assert(pending_spec(current_version as int, i + 1) =~= pending_spec(
                        current_version as int,
                        i as int,
                    ).push(version));
                }
            }
        } else {
            assert(pending_spec(current_version as int, i + 1) =~= Seq::<i32>::empty());
        }
        i = i + 1;
    }
    out
}

/// The pending versions are each applied once, in ascending order, and all
/// lie above the current version and within the migrations that exist.
pub proof fn lemma_pending_ascending(current: int, available: int)
    requires
        0 <= available < i32::MAX,
    ensures
        forall|a: int, b: int|
            0 <= a < b < pending_spec(current, available).len() ==> pending_spec(
                current,
                available,
            )[a] < pending_spec(current, available)[b],
        forall|a: int|
            0 <= a < pending_spec(current, available).len() ==> current < pending_spec(
                current,
                available,
            )[a] <= available && 1 <= #[trigger] pending_spec(current, available)[a],
{
}

/// Migrating twice changes nothing the second time: after the pending
/// versions are applied, none is pending any more.
pub proof fn lemma_migration_idempotent(current: int, available: int)
    requires
        0 <= available < i32::MAX,
        current <= i32::MAX,
    ensures
        pending_spec(version_after(current, pending_spec(current, available)), available).len()
            == 0,
        version_after(current, pending_spec(current, available)) == if current < available && available > 0 {
            available
        } else {
            current
        },
{
}

/// The usage totals that a sum query returns: absent sums (no rows) count
/// as 0.
pub fn usage_totals(rx_sum: Option<i64>, tx_sum: Option<i64>) -> (r: (u64, u64))
    ensures
        r == (stored_counter_spec(rx_sum), stored_counter_spec(tx_sum)),
{
    (stored_counter(rx_sum), stored_counter(tx_sum))
}

} // verus!
