//! Round-robin choice of the VPN exit node used after bot detection.
use vstd::prelude::*;

use crate::config::IpRotationSection;
use crate::text::{chars_of, owned, trim, trim_bounds, views};

verus! {

/// Rotates the exit node of the VPN through the configured nodes.
#[derive(Clone, Debug)]
pub struct IpRotator {
    binary: String,
    exit_nodes: Vec<String>,
    current_index: usize,
    cooldown_seconds: u64,
}

/// The nodes that are not blank, in order.
pub open spec fn usable_nodes(nodes: Seq<String>) -> Seq<Seq<char>>
    decreases nodes.len(),
{
    if nodes.len() == 0 {
        Seq::empty()
    } else {
        let rest = usable_nodes(nodes.drop_last());
        if trim(nodes.last()@).len() == 0 {
            rest
        } else {
            rest.push(nodes.last()@)
        }
    }
}

impl IpRotator {
    pub closed spec fn spec_nodes(self) -> Seq<Seq<char>> {
        views(self.exit_nodes@)
    }

    pub closed spec fn spec_index(self) -> usize {
        self.current_index
    }

    pub closed spec fn spec_binary(self) -> Seq<char> {
        self.binary@
    }

    pub closed spec fn spec_cooldown(self) -> u64 {
        self.cooldown_seconds
    }

    pub open spec fn wf(self) -> bool {
        self.spec_nodes().len() == 0 || self.spec_index() < self.spec_nodes().len()
    }

    /// A rotator over the non-blank exit nodes of the configuration, starting
    /// with the first.
    pub fn new(config: IpRotationSection) -> (r: Self)
        ensures
            r.wf(),
            r.spec_nodes() == usable_nodes(config.exit_nodes@),
            r.spec_index() == 0,
            r.spec_binary() == config.tailscale_binary@,
            r.spec_cooldown() == config.cooldown_seconds,
    {
        let nodes = config.exit_nodes;
        let mut kept: Vec<String> = Vec::new();
        let mut i: usize = 0;
        while i < nodes.len()
            invariant
                i <= nodes@.len(),
                views(kept@) == usable_nodes(nodes@.take(i as int)),
            decreases nodes@.len() - i,
        {
            let cs = chars_of(nodes[i].as_str());
            let (a, b) = trim_bounds(&cs);
            let ghost before = views(kept@);
            assert(nodes@.take(i + 1).drop_last() =~= nodes@.take(i as int));
            if a < b {
                kept.push(nodes[i].clone());
                assert(views(kept@) =~= before.push(nodes@[i as int]@));
            }
            i = i + 1;
        }
        assert(nodes@.take(nodes@.len() as int) =~= nodes@);
        IpRotator {
            binary: config.tailscale_binary,
            exit_nodes: kept,
            current_index: 0,
            cooldown_seconds: config.cooldown_seconds,
        }
    }

    pub fn has_exit_nodes(&self) -> (r: bool)
        ensures
            r == (self.spec_nodes().len() > 0),
    {
        self.exit_nodes.len() > 0
    }

    pub fn binary(&self) -> (r: &str)
        ensures
            r@ == self.spec_binary(),
    {
        self.binary.as_str()
    }

    pub fn cooldown_seconds(&self) -> (r: u64)
        ensures
            r == self.spec_cooldown(),
    {
        self.cooldown_seconds
    }

    /// The node to use now, advancing to the next one (wrapping round).
    pub fn next_index(&mut self) -> (r: Option<usize>)
        requires
            old(self).wf(),
        ensures
            final(self).wf(),
            final(self).spec_nodes() == old(self).spec_nodes(),
            final(self).spec_binary() == old(self).spec_binary(),
            final(self).spec_cooldown() == old(self).spec_cooldown(),
            old(self).spec_nodes().len() == 0 ==> r is None && final(self).spec_index() == old(self).spec_index(),
            old(self).spec_nodes().len() > 0 ==> r == Some(old(self).spec_index())
                && final(self).spec_index() == (old(self).spec_index() + 1) % (old(self).spec_nodes().len() as int),
            old(self).spec_nodes().len() > 0 ==> final(self).spec_index() == rotated(
                old(self).spec_index() as int,
                1,
                old(self).spec_nodes().len() as int,
            ),
    {
        proof {
            assert(rotated(self.current_index as int, 0, self.exit_nodes@.len() as int) == self.current_index);
        }
        if self.exit_nodes.len() == 0 {
            None
        } else {
            let index = self.current_index;
            self.current_index = (self.current_index + 1) % self.exit_nodes.len();
            Some(index)
        }
    }

    /// The exit node to switch to and the arguments of the VPN command
    /// (`set --exit-node NODE`), advancing the rotation; `None` without nodes.
    pub fn prepare_rotation(&mut self) -> (r: Option<(String, Vec<String>)>)
        requires
            old(self).wf(),
        ensures
            final(self).wf(),
            final(self).spec_nodes() == old(self).spec_nodes(),
            final(self).spec_binary() == old(self).spec_binary(),
            old(self).spec_nodes().len() == 0 ==> r is None,
            old(self).spec_nodes().len() > 0 ==> {
                &&& r is Some
                &&& r.unwrap().0@ == old(self).spec_nodes()[old(self).spec_index() as int]
                &&& views(r.unwrap().1@) == seq!["set"@, "--exit-node"@, old(self).spec_nodes()[old(self).spec_index() as int]]
                &&& final(self).spec_index() == (old(self).spec_index() + 1) % (old(self).spec_nodes().len() as int)
                &&& final(self).spec_index() == rotated(
                    old(self).spec_index() as int,
                    1,
                    old(self).spec_nodes().len() as int,
                )
            },
    {
        match self.next_index() {
            None => None,
            Some(index) => {
                let node = self.exit_nodes[index].clone();
                let mut args: Vec<String> = Vec::new();
                args.push(owned("set"));
                args.push(owned("--exit-node"));
                args.push(node.clone());
                assert(views(args@) =~= seq!["set"@, "--exit-node"@, node@]);
                Some((node, args))
            },
        }
    }
}

/// Where the rotation stands after `n` steps from `start` among `k` nodes,
/// each step being the one that `next_index` takes.
pub open spec fn rotated(start: int, n: nat, k: int) -> int
    decreases n,
{
    if n == 0 {
        start
    } else {
        (rotated(start, (n - 1) as nat, k) + 1) % k
    }
}

/// Round robin: after `n` rotations starting at node `start` of `k` nodes,
/// the rotator stands at node `(start + n) mod k`; in particular every node
/// is used once in each `k` consecutive rotations.
pub proof fn law_round_robin(start: int, n: nat, k: int)
    requires
        k > 0,
        0 <= start < k,
    ensures
        rotated(start, n, k) == (start + n) % k,
    decreases n,
{
    if n == 0 {
        vstd::arithmetic::div_mod::lemma_small_mod(start as nat, k as nat);
    } else {
        law_round_robin(start, (n - 1) as nat, k);
        vstd::arithmetic::div_mod::lemma_add_mod_noop_right(1, start + n - 1, k);
    }
}

/// From a fresh rotator (standing at the first node), the call numbered
/// `n` (from 0) switches to node `n mod k` of the `k` usable nodes: each
/// call of `prepare_rotation` takes one step of [`rotated`], and `n` steps
/// from the first node stand at `n mod k`.
pub proof fn law_fresh_rotation_uses(nodes: Seq<Seq<char>>, n: nat)
    requires
        nodes.len() > 0,
    ensures
        0 <= rotated(0, n, nodes.len() as int) < nodes.len(),
        nodes[rotated(0, n, nodes.len() as int)] == nodes[(n % nodes.len()) as int],
{
    law_round_robin(0, n, nodes.len() as int);
}

} // verus!
