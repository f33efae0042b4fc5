//! What the curator may do with its evaluation.
use vstd::prelude::*;

use crate::text::views;

verus! {

/// Whether the curator only advises or applies its reordering.
#[derive(Clone, Copy, Debug, PartialEq, Eq, Structural)]
pub enum CuratorDecision {
    Advice,
    Apply,
}

/// The order after the most novel candidate, at `index`, moves forward by
/// up to `max_distance` places (to the front at most); the others keep their
/// order.
pub open spec fn promoted(order: Seq<Seq<char>>, index: int, max_distance: int) -> Seq<Seq<char>> {
    let target = if index >= max_distance { index - max_distance } else { 0 };
    order.remove(index).insert(target, order[index])
}

/// Moves the candidate at `index` forward by up to `max_distance` places.
pub fn promote(order: Vec<String>, index: usize, max_distance: usize) -> (r: Vec<String>)
    requires
        index < order@.len(),
    ensures
        views(r@) == promoted(views(order@), index as int, max_distance as int),
{
    let target = if index >= max_distance { index - max_distance } else { 0 };
    let mut order = order;
    let ghost before = views(order@);
    if index != target {
        let plan_id = order.remove(index);
        order.insert(target, plan_id);
        assert(views(order@) =~= promoted(before, index as int, max_distance as int));
    } else {
        assert(before.remove(index as int).insert(target as int, before[index as int]) =~= before);
    }
    order
}


/// Tokens refilled over `elapsed_ms` milliseconds at `rate` millionths of a
/// token per hour, added to `tokens` and held at `capacity`.
pub open spec fn refilled(tokens: int, capacity: int, rate: int, elapsed_ms: int) -> int {
    let topped = tokens + elapsed_ms * rate / 3_600_000;
    if topped < capacity {
        topped
    } else {
        capacity
    }
}

/// The curator's budget of applied reorderings. Amounts are in millionths
/// of a token and times in milliseconds on a clock of the caller's choosing.
#[derive(Clone, Copy, Debug)]
pub struct TokenBucket {
    pub capacity: i64,
    pub tokens: i64,
    refill_per_hour: u64,
    last_refill_ms: u64,
}

impl TokenBucket {
    /// The most tokens the bucket holds.
    pub closed spec fn spec_capacity(self) -> i64 {
        self.capacity
    }

    /// The tokens held now.
    pub closed spec fn spec_tokens(self) -> i64 {
        self.tokens
    }

    /// Millionths of a token added per hour.
    pub closed spec fn spec_rate(self) -> u64 {
        self.refill_per_hour
    }

    /// When the bucket was last refilled.
    pub closed spec fn spec_last_refill(self) -> u64 {
        self.last_refill_ms
    }

    /// A full bucket; a rate that is not positive refills nothing.
    pub fn new(capacity: i64, refill_per_hour: i64, now_ms: u64) -> (r: Self)
        ensures
            r.spec_capacity() == capacity,
            r.spec_tokens() == capacity,
            r.spec_rate() == (if refill_per_hour <= 0 {
                0
            } else {
                refill_per_hour
            }),
            r.spec_last_refill() == now_ms,
    {
        let rate: u64 = if refill_per_hour <= 0 {
            0
        } else {
            refill_per_hour as u64
        };
        TokenBucket { capacity, tokens: capacity, refill_per_hour: rate, last_refill_ms: now_ms }
    }

    /// Adds what the time since the last refill brings (none when the clock
    /// went back), held at the capacity.
    fn refill(&mut self, now_ms: u64)
        ensures
            final(self).spec_tokens() == refilled(
                old(self).spec_tokens() as int,
                old(self).spec_capacity() as int,
                old(self).spec_rate() as int,
                (if now_ms >= old(self).spec_last_refill() {
                    now_ms - old(self).spec_last_refill()
                } else {
                    0
                }),
            ),
            final(self).spec_capacity() == old(self).spec_capacity(),
            final(self).spec_rate() == old(self).spec_rate(),
            final(self).spec_last_refill() == now_ms,
    {
        let elapsed: u64 = if now_ms >= self.last_refill_ms {
            now_ms - self.last_refill_ms
        } else {
            0
        };
        let e = elapsed as u128;
        let rate = self.refill_per_hour as u128;
        assert(e * rate <= 0xffff_ffff_ffff_ffffu128 * 0xffff_ffff_ffff_ffffu128) by (nonlinear_arith)
            requires
                e <= 0xffff_ffff_ffff_ffffu128,
                rate <= 0xffff_ffff_ffff_ffffu128,
        ;
        let added = e * rate / 3_600_000;
        assert(added <= e * rate) by (nonlinear_arith)
            requires
                added == e * rate / 3_600_000,
        ;
        let topped: i128 = self.tokens as i128 + added as i128;
        self.tokens = if topped < self.capacity as i128 {
            topped as i64
        } else {
            self.capacity
        };
        self.last_refill_ms = now_ms;
    }

    /// Refills, then spends `amount` when the bucket holds it (one
    /// millionth of slack); whether it did.
    pub fn take(&mut self, amount: u64, now_ms: u64) -> (r: bool)
        ensures
            ({
                let level = refilled(
                    old(self).spec_tokens() as int,
                    old(self).spec_capacity() as int,
                    old(self).spec_rate() as int,
                    (if now_ms >= old(self).spec_last_refill() {
                        now_ms - old(self).spec_last_refill()
                    } else {
                        0
                    }),
                );
                &&& r == (level + 1 >= amount)
                &&& r ==> final(self).spec_tokens() == level - amount
                &&& !r ==> final(self).spec_tokens() == level
            }),
            final(self).spec_capacity() == old(self).spec_capacity(),
            final(self).spec_rate() == old(self).spec_rate(),
            final(self).spec_last_refill() == now_ms,
    {
        self.refill(now_ms);
        if self.tokens as i128 + 1 >= amount as i128 {
            self.tokens = (self.tokens as i128 - amount as i128) as i64;
            true
        } else {
            false
        }
    }
}

/// The budget never exceeds its capacity: after any take the bucket holds
/// at most `capacity` tokens.
pub proof fn law_bucket_within_capacity(tokens: int, capacity: int, rate: int, elapsed_ms: int, amount: int)
    requires
        rate >= 0,
        elapsed_ms >= 0,
        amount >= 0,
    ensures
        refilled(tokens, capacity, rate, elapsed_ms) <= capacity,
        refilled(tokens, capacity, rate, elapsed_ms) - amount <= capacity,
{
}

} // verus!
