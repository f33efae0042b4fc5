//! The scheduling and selection settings of the business logic policy.
use vstd::prelude::*;

verus! {

/// How slots are laid out and seeded.
#[derive(Clone, Copy, Debug)]
pub struct Scheduling {
    pub slot_duration_minutes: u32,
    pub window_id: Option<u64>,
    pub global_seed: Option<u64>,
    pub lock_curator_applies: bool,
}

impl Scheduling {
    /// Slots last a quarter of an hour unless configured otherwise.
    pub fn default_slot_duration() -> (r: u32)
        ensures
            r == 15,
    {
        15
    }

    /// The seed of the global strategy: the configured one, or 42.
    pub fn global_seed_or_default(&self) -> (r: u64)
        ensures
            r == match self.global_seed {
                Some(s) => s,
                None => 42,
            },
    {
        match self.global_seed {
            Some(s) => s,
            None => 42,
        }
    }

    /// The window of the window strategy: the configured one, or 0.
    pub fn window_id_or_default(&self) -> (r: u64)
        ensures
            r == match self.window_id {
                Some(w) => w,
                None => 0,
            },
    {
        match self.window_id {
            Some(w) => w,
            None => 0,
        }
    }
}

impl Default for Scheduling {
    fn default() -> (r: Self)
        ensures
            r.slot_duration_minutes == 15,
            r.window_id is None,
            r.global_seed is None,
            !r.lock_curator_applies,
    {
        Scheduling {
            slot_duration_minutes: Self::default_slot_duration(),
            window_id: None,
            global_seed: None,
            lock_curator_applies: false,
        }
    }
}

/// The indicators the policy is judged by.
#[derive(Clone, Debug)]
pub struct Kpis {
    pub primary: Vec<String>,
    pub secondary: Vec<String>,
}

impl Default for Kpis {
    fn default() -> (r: Self)
        ensures
            r.primary@.len() == 0,
            r.secondary@.len() == 0,
    {
        Kpis { primary: Vec::new(), secondary: Vec::new() }
    }
}

/// How candidates are drawn.
#[derive(Clone, Copy, Debug, PartialEq, Eq, Structural)]
pub enum SelectionMethod {
    GumbelTopK,
    Softmax,
    Greedy,
    EpsilonGreedy,
}

impl Default for SelectionMethod {
    fn default() -> (r: Self)
        ensures
            r == SelectionMethod::GumbelTopK,
    {
        SelectionMethod::GumbelTopK
    }
}

/// Where the seed of a draw comes from.
#[derive(Clone, Copy, Debug, PartialEq, Eq, Structural)]
pub enum SeedStrategy {
    SlotHash,
    Global,
    Window,
}

impl Default for SeedStrategy {
    fn default() -> (r: Self)
        ensures
            r == SeedStrategy::SlotHash,
    {
        SeedStrategy::SlotHash
    }
}

/// The top-k of a selection: the configured one or the default, at least 1.
pub fn selection_top_k(configured: Option<usize>, default: usize) -> (r: usize)
    ensures
        r == {
            let k = match configured {
                Some(k) => k,
                None => default,
            };
            if k < 1 {
                1
            } else {
                k
            }
        },
{
    let k = match configured {
        Some(k) => k,
        None => default,
    };
    if k < 1 {
        1
    } else {
        k
    }
}

} // verus!
