//! Reproducible seeds for the selection of plans: the same slot, window and
//! global seed always give the same seed.
use vstd::prelude::*;

use std::hash::{Hash, Hasher};

use crate::time::UtcTimestamp;

verus! {

/// What `std::collections::hash_map::DefaultHasher::new()` finishes with
/// after hashing the slot index, the window and the global seed, in order.
pub uninterp spec fn slot_hash(epoch_index: i64, window_id: u64, global_seed: u64) -> u64;

/// Calls `DefaultHasher::new()`, hashes the three numbers in order and
/// finishes. `new` uses fixed keys, so the result is taken to depend on the
/// numbers alone.
#[verifier::external_body]
fn hash_slot(epoch_index: i64, window_id: u64, global_seed: u64) -> (r: u64)
    ensures
        r == slot_hash(epoch_index, window_id, global_seed),
{
    let mut hasher = std::collections::hash_map::DefaultHasher::new();
    epoch_index.hash(&mut hasher);
    window_id.hash(&mut hasher);
    global_seed.hash(&mut hasher);
    hasher.finish()
}

/// The length of a slot in seconds: the configured one, at least a minute.
pub open spec fn slot_seconds(slot_duration_secs: i64) -> int {
    if slot_duration_secs < 60 {
        60
    } else {
        slot_duration_secs as int
    }
}

/// The index of the slot an instant falls in: its seconds since the epoch
/// divided by the slot length, rounded down.
pub open spec fn slot_index(now_secs: i64, slot_duration_secs: i64) -> int {
    now_secs as int / slot_seconds(slot_duration_secs)
}

/// The seed of the slot that `now` falls in, for a window and global seed.
pub fn generate_slot_seed_robust(now: &UtcTimestamp, slot_duration_secs: i64, window_id: u64, global_seed: u64) -> (r: u64)
    ensures
        r == slot_hash(slot_index(now.spec_secs(), slot_duration_secs) as i64, window_id, global_seed),
{
    let slot: i64 = if slot_duration_secs < 60 { 60 } else { slot_duration_secs };
    let secs = now.secs();
    proof {
        assert(i64::MIN <= secs as int / slot as int <= i64::MAX) by (nonlinear_arith)
            requires
                slot >= 60,
                i64::MIN <= secs <= i64::MAX,
        {
        }
    }
    let epoch: i64 = match secs.checked_div_euclid(slot) {
        Some(q) => q,
        None => vstd::pervasive::unreached(),
    };
    hash_slot(epoch, window_id, global_seed)
}

/// Two instants in the same slot get the same seed.
pub proof fn law_seed_stable_within_slot(a: UtcTimestamp, b: UtcTimestamp, slot_duration_secs: i64, window_id: u64, global_seed: u64)
    requires
        slot_index(a.spec_secs(), slot_duration_secs) == slot_index(b.spec_secs(), slot_duration_secs),
    ensures
        slot_hash(slot_index(a.spec_secs(), slot_duration_secs) as i64, window_id, global_seed)
            == slot_hash(slot_index(b.spec_secs(), slot_duration_secs) as i64, window_id, global_seed),
{
}

} // verus!
