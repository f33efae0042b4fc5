//! Micro-spots: how often a sponsor's spot may air, and how its queue
//! entries are named.
use vstd::prelude::*;

use crate::chance::random_between;
use crate::text::{concat2, i64_to_decimal, signed_decimal};

verus! {

/// The shortest interval between airings of a spot, when unset: 25 minutes.
pub fn default_cadence_min() -> (r: i64)
    ensures
        r == 25,
{
    25
}

/// The longest interval between airings of a spot, when unset: 40 minutes.
pub fn default_cadence_max() -> (r: i64)
    ensures
        r == 40,
{
    40
}

/// The minutes until a spot may air again: a random number between the
/// contract's bounds, inclusive, the lower bound raised to at least 1 and the
/// upper bound to at least the lower one.
pub fn random_cadence(min_minutes: i64, max_minutes: i64) -> (r: i64)
    ensures
        ({
            let lo = if min_minutes < 1 { 1 } else { min_minutes };
            let hi = if max_minutes < lo { lo } else { max_minutes };
            lo <= r <= hi
        }),
{
    let lo: i64 = if min_minutes < 1 { 1 } else { min_minutes };
    let hi: i64 = if max_minutes < lo { lo } else { max_minutes };
    let drawn = random_between(lo as u64, hi as u64);
    drawn as i64
}

/// The plan id of a spot's queue entry: `microspot:<id>:<unix seconds>`.
pub fn microspot_plan_id(contract_id: &str, now_secs: i64) -> (r: String)
    ensures
        r@ == "microspot:"@ + contract_id@ + seq![':'] + signed_decimal(now_secs as int),
{
    let mut id = concat2("microspot:", contract_id);
    id.append(":");
    let secs = i64_to_decimal(now_secs);
    id.append(secs.as_str());
    proof {
        reveal_strlit(":");
    }
    assert(id@ =~= "microspot:"@ + contract_id@ + seq![':'] + signed_decimal(now_secs as int));
    id
}

} // verus!
