//! The planner's diversity rule: which scored candidates make the
//! selection so that enough different kinds of content are represented.
use vstd::prelude::*;

use crate::text::str_eq;

verus! {

/// A scored candidate as the rule sees it: its plan id and its kind.
pub open spec fn id_kind(v: Seq<(String, String)>, i: int) -> (Seq<char>, Seq<char>) {
    (v[i].0@, v[i].1@)
}

/// True when one of the chosen positions holds an item of kind `k`.
pub open spec fn kind_taken(items: Seq<(Seq<char>, Seq<char>)>, chosen: Seq<int>, k: Seq<char>) -> bool {
    exists|j: int| 0 <= j < chosen.len() && items[#[trigger] chosen[j]].1 == k
}

/// True when one of the chosen positions holds an item with plan id `p`.
pub open spec fn id_taken(items: Seq<(Seq<char>, Seq<char>)>, chosen: Seq<int>, p: Seq<char>) -> bool {
    exists|j: int| 0 <= j < chosen.len() && items[#[trigger] chosen[j]].0 == p
}

/// The first pass over the first `n` items: the first item of each kind,
/// in order, until `min_diverse` are chosen.
pub open spec fn kinds_pass(items: Seq<(Seq<char>, Seq<char>)>, min_diverse: nat, n: int) -> Seq<int>
    decreases n,
{
    if n <= 0 {
        Seq::empty()
    } else {
        let acc = kinds_pass(items, min_diverse, n - 1);
        if acc.len() >= min_diverse {
            acc
        } else if kind_taken(items, acc, items[n - 1].1) {
            acc
        } else {
            acc.push(n - 1)
        }
    }
}

/// The second pass over the first `n` items: after the first pass, every
/// item whose plan is not chosen yet, in order, until `target` are chosen.
pub open spec fn fill_pass(items: Seq<(Seq<char>, Seq<char>)>, target: nat, start: Seq<int>, n: int) -> Seq<int>
    decreases n,
{
    if n <= 0 {
        start
    } else {
        let acc = fill_pass(items, target, start, n - 1);
        if acc.len() >= target {
            acc
        } else if id_taken(items, acc, items[n - 1].0) {
            acc
        } else {
            acc.push(n - 1)
        }
    }
}

/// The positions selected among `items` (in score order) for `top_k`
/// places of which `min_diverse` go first to distinct kinds.
pub open spec fn diverse_selection(items: Seq<(Seq<char>, Seq<char>)>, top_k: nat, min_diverse: nat) -> Seq<int> {
    let target = if items.len() < top_k { items.len() } else { top_k };
    if target == 0 {
        Seq::empty()
    } else {
        fill_pass(items, target, kinds_pass(items, min_diverse, items.len() as int), items.len() as int)
    }
}

fn kind_chosen(items: &Vec<(String, String)>, chosen: &Vec<usize>, kind: &str) -> (r: bool)
    requires
        forall|j: int| 0 <= j < chosen@.len() ==> (#[trigger] chosen@[j]) < items@.len(),
    ensures
        r == kind_taken(items@.map_values(|p: (String, String)| (p.0@, p.1@)), chosen@.map_values(|x: usize| x as int), kind@),
{
    let ghost iv = items@.map_values(|p: (String, String)| (p.0@, p.1@));
    let ghost cv = chosen@.map_values(|x: usize| x as int);
    let mut j: usize = 0;
    while j < chosen.len()
        invariant
            j <= chosen@.len(),
            iv == items@.map_values(|p: (String, String)| (p.0@, p.1@)),
            cv == chosen@.map_values(|x: usize| x as int),
            forall|t: int| 0 <= t < chosen@.len() ==> (#[trigger] chosen@[t]) < items@.len(),
            forall|t: int| 0 <= t < j ==> iv[#[trigger] cv[t]].1 != kind@,
        decreases chosen@.len() - j,
    {
        let c = chosen[j];
        if str_eq(items[c].1.as_str(), kind) {
            assert(iv[cv[j as int]].1 == kind@);
            return true;
        }
        j = j + 1;
    }
    false
}

fn id_chosen(items: &Vec<(String, String)>, chosen: &Vec<usize>, id: &str) -> (r: bool)
    requires
        forall|j: int| 0 <= j < chosen@.len() ==> (#[trigger] chosen@[j]) < items@.len(),
    ensures
        r == id_taken(items@.map_values(|p: (String, String)| (p.0@, p.1@)), chosen@.map_values(|x: usize| x as int), id@),
{
    let ghost iv = items@.map_values(|p: (String, String)| (p.0@, p.1@));
    let ghost cv = chosen@.map_values(|x: usize| x as int);
    let mut j: usize = 0;
    while j < chosen.len()
        invariant
            j <= chosen@.len(),
            iv == items@.map_values(|p: (String, String)| (p.0@, p.1@)),
            cv == chosen@.map_values(|x: usize| x as int),
            forall|t: int| 0 <= t < chosen@.len() ==> (#[trigger] chosen@[t]) < items@.len(),
            forall|t: int| 0 <= t < j ==> iv[#[trigger] cv[t]].0 != id@,
        decreases chosen@.len() - j,
    {
        let c = chosen[j];
        if str_eq(items[c].0.as_str(), id) {
            assert(iv[cv[j as int]].0 == id@);
            return true;
        }
        j = j + 1;
    }
    false
}

/// The positions of the candidates (given in score order as plan id and
/// kind) that make the selection: at most `top_k` places, the first ones
/// going to the first candidate of each kind until `min_diverse` are chosen,
/// the rest to the best candidates whose plan is not chosen yet.
pub fn enforce_diversity(items: &Vec<(String, String)>, top_k: usize, min_diverse: usize) -> (r: Vec<usize>)
    ensures
        r@.map_values(|x: usize| x as int) == diverse_selection(
            items@.map_values(|p: (String, String)| (p.0@, p.1@)),
            top_k as nat,
            min_diverse as nat,
        ),
{
    let ghost iv = items@.map_values(|p: (String, String)| (p.0@, p.1@));
    let target = if items.len() < top_k { items.len() } else { top_k };
    let mut chosen: Vec<usize> = Vec::new();
    if target == 0 {
        assert(chosen@.map_values(|x: usize| x as int) =~= Seq::<int>::empty());
        return chosen;
    }
    let mut i: usize = 0;
    while i < items.len()
        invariant
            i <= items@.len(),
            iv == items@.map_values(|p: (String, String)| (p.0@, p.1@)),
            forall|t: int| 0 <= t < chosen@.len() ==> (#[trigger] chosen@[t]) < i,
            chosen@.map_values(|x: usize| x as int) == kinds_pass(iv, min_diverse as nat, i as int),
        decreases items@.len() - i,
    {
        if chosen.len() < min_diverse {
            let taken = kind_chosen(items, &chosen, items[i].1.as_str());
            if !taken {
                let ghost before = chosen@.map_values(|x: usize| x as int);
                chosen.push(i);
                assert(chosen@.map_values(|x: usize| x as int) =~= before.push(i as int));
            }
        }
        i = i + 1;
    }
    let ghost first = chosen@.map_values(|x: usize| x as int);
    let mut i: usize = 0;
    while i < items.len()
        invariant
            i <= items@.len(),
            iv == items@.map_values(|p: (String, String)| (p.0@, p.1@)),
            first == kinds_pass(iv, min_diverse as nat, items@.len() as int),
            forall|t: int| 0 <= t < chosen@.len() ==> (#[trigger] chosen@[t]) < items@.len(),
            chosen@.map_values(|x: usize| x as int) == fill_pass(iv, target as nat, first, i as int),
        decreases items@.len() - i,
    {
        if chosen.len() < target {
            let taken = id_chosen(items, &chosen, items[i].0.as_str());
            if !taken {
                let ghost before = chosen@.map_values(|x: usize| x as int);
                chosen.push(i);
                assert(chosen@.map_values(|x: usize| x as int) =~= before.push(i as int));
            }
        }
        i = i + 1;
    }
    chosen
}

/// Positions that are in range and pairwise different.
pub open spec fn distinct_positions(s: Seq<int>, len: int) -> bool {
    &&& forall|j: int| 0 <= j < s.len() ==> 0 <= #[trigger] s[j] < len
    &&& forall|a: int, b: int| 0 <= a < b < s.len() ==> s[a] != s[b]
}

proof fn lemma_kinds_pass(items: Seq<(Seq<char>, Seq<char>)>, min_diverse: nat, n: int)
    requires
        0 <= n <= items.len(),
    ensures
        kinds_pass(items, min_diverse, n).len() <= min_diverse,
        forall|j: int| 0 <= j < kinds_pass(items, min_diverse, n).len() ==> 0 <= #[trigger] kinds_pass(items, min_diverse, n)[j] < n,
        distinct_positions(kinds_pass(items, min_diverse, n), items.len() as int),
    decreases n,
{
    if n > 0 {
        lemma_kinds_pass(items, min_diverse, n - 1);
        let acc = kinds_pass(items, min_diverse, n - 1);
        let r = kinds_pass(items, min_diverse, n);
        if !(acc.len() >= min_diverse) && !kind_taken(items, acc, items[n - 1].1) {
            assert forall|a: int, b: int| 0 <= a < b < r.len() implies r[a] != r[b] by {
                if b == r.len() - 1 {
                    assert(r[a] == acc[a]);
                    assert(acc[a] < n - 1);
                } else {
                    assert(r[a] == acc[a] && r[b] == acc[b]);
                }
            }
            assert forall|j: int| 0 <= j < r.len() implies 0 <= #[trigger] r[j] < n by {
                if j < acc.len() {
                    assert(r[j] == acc[j]);
                }
            }
        }
    }
}

proof fn lemma_fill_pass(items: Seq<(Seq<char>, Seq<char>)>, target: nat, start: Seq<int>, n: int)
    requires
        0 <= n <= items.len(),
        distinct_positions(start, items.len() as int),
    ensures
        fill_pass(items, target, start, n).len() >= start.len(),
        fill_pass(items, target, start, n).len() <= if start.len() > target { start.len() } else { target },
        fill_pass(items, target, start, n).subrange(0, start.len() as int) == start,
        forall|j: int| start.len() <= j < fill_pass(items, target, start, n).len() ==> #[trigger] fill_pass(items, target, start, n)[j] < n,
        distinct_positions(fill_pass(items, target, start, n), items.len() as int),
    decreases n,
{
    if n > 0 {
        lemma_fill_pass(items, target, start, n - 1);
        let acc = fill_pass(items, target, start, n - 1);
        let r = fill_pass(items, target, start, n);
        if !(acc.len() >= target) && !id_taken(items, acc, items[n - 1].0) {
            assert(r == acc.push(n - 1));
            assert forall|a: int, b: int| 0 <= a < b < r.len() implies r[a] != r[b] by {
                if b == r.len() - 1 {
                    assert(r[a] == acc[a]);
                    if acc[a] == n - 1 {
                        assert(items[acc[a]].0 == items[n - 1].0);
                        assert(id_taken(items, acc, items[n - 1].0));
                    }
                } else {
                    assert(r[a] == acc[a] && r[b] == acc[b]);
                }
            }
            assert forall|j: int| 0 <= j < r.len() implies 0 <= #[trigger] r[j] < items.len() by {
                if j < acc.len() {
                    assert(r[j] == acc[j]);
                }
            }
            assert forall|j: int| start.len() <= j < r.len() implies #[trigger] r[j] < n by {
                if j < acc.len() {
                    assert(r[j] == acc[j]);
                }
            }
            assert(r.subrange(0, start.len() as int) =~= acc.subrange(0, start.len() as int));
        }
    }
}

/// The diversity rule never selects a candidate twice, selects only given
/// candidates, and fills at most `top_k` places unless more than that are
/// reserved for distinct kinds; the places reserved for kinds come first.
pub proof fn law_selection_is_a_set(items: Seq<(Seq<char>, Seq<char>)>, top_k: nat, min_diverse: nat)
    ensures
        distinct_positions(diverse_selection(items, top_k, min_diverse), items.len() as int),
        diverse_selection(items, top_k, min_diverse).len() <= if min_diverse > top_k { min_diverse } else { top_k },
        diverse_selection(items, top_k, min_diverse).len() > 0 ==> diverse_selection(items, top_k, min_diverse).subrange(
            0,
            kinds_pass(items, min_diverse, items.len() as int).len() as int,
        ) == kinds_pass(items, min_diverse, items.len() as int),
{
    let target = if items.len() < top_k { items.len() } else { top_k };
    if target != 0 {
        lemma_kinds_pass(items, min_diverse, items.len() as int);
        lemma_fill_pass(items, target as nat, kinds_pass(items, min_diverse, items.len() as int), items.len() as int);
    }
}

} // verus!
