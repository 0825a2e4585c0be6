//! Layout of the neighbouring machines around the local screens.
use vstd::prelude::*;
use crate::protocol::{DisplayInfo, ScreenEdge};

verus! {

/// Bit pattern of the single-precision value 0.0
pub const F32_ZERO_BITS: u32 = 0;

/// Bit pattern of the single-precision value 2.0, the default edge threshold in pixels
pub const DEFAULT_EDGE_THRESHOLD_BITS: u32 = 0x4000_0000;

/// Bit pattern of the single-precision value 20.0, the default corner dead-zone in pixels
pub const DEFAULT_CORNER_DEADZONE_BITS: u32 = 0x41a0_0000;

/// Relative positioning of a neighbour peer screen
#[derive(Debug, Clone, PartialEq)]
pub struct NeighborPlacement {
    pub peer_id: String,
    pub edge: ScreenEdge,
    /// Bit pattern of the single-precision offset ratio along the edge, between -1.0 and 1.0
    pub offset_ratio: u32,
}

/// A neighbour placement seen as (peer id, edge, offset ratio bits).
pub open spec fn placement_view(n: NeighborPlacement) -> (Seq<char>, ScreenEdge, u32) {
    (n.peer_id@, n.edge, n.offset_ratio)
}

/// The neighbour list after placing `peer_id` at `edge`: any earlier placement of that
/// peer is dropped, the others keep their order, and the new placement comes last.
pub open spec fn placements_after_add(
    placements: Seq<(Seq<char>, ScreenEdge, u32)>,
    peer_id: Seq<char>,
    edge: ScreenEdge,
) -> Seq<(Seq<char>, ScreenEdge, u32)> {
    placements.filter(other_peer(peer_id)).push((peer_id, edge, F32_ZERO_BITS))
}

/// Whether a placement belongs to a peer other than `peer_id`.
pub open spec fn other_peer(peer_id: Seq<char>) -> spec_fn((Seq<char>, ScreenEdge, u32)) -> bool {
    |n: (Seq<char>, ScreenEdge, u32)| n.0 != peer_id
}

/// No two placements name the same peer.
pub open spec fn peers_distinct(placements: Seq<(Seq<char>, ScreenEdge, u32)>) -> bool {
    forall|i: int, j: int|
        0 <= i < placements.len() && 0 <= j < placements.len() && i != j
            ==> placements[i].0 != placements[j].0
}

/// The peer placed first at `edge`, if any.
pub open spec fn first_neighbor_at(placements: Seq<(Seq<char>, ScreenEdge, u32)>, edge: ScreenEdge) -> Option<Seq<char>>
    decreases placements.len(),
{
    if placements.len() == 0 {
        None
    } else if placements[0].1 == edge {
        Some(placements[0].0)
    } else {
        first_neighbor_at(placements.drop_first(), edge)
    }
}

proof fn lemma_first_neighbor_at(placements: Seq<(Seq<char>, ScreenEdge, u32)>, edge: ScreenEdge, i: int)
    requires
        0 <= i <= placements.len(),
        forall|j: int| 0 <= j < i ==> (#[trigger] placements[j]).1 != edge,
    ensures
        i < placements.len() && placements[i].1 == edge ==> first_neighbor_at(placements, edge) == Some(placements[i].0),
        i == placements.len() ==> first_neighbor_at(placements, edge) is None,
    decreases i,
{
    if i > 0 {
        let rest = placements.drop_first();
        assert forall|j: int| 0 <= j < i - 1 implies (#[trigger] rest[j]).1 != edge by {
            assert(rest[j] == placements[j + 1]);
        }
        lemma_first_neighbor_at(rest, edge, i - 1);
        assert(placements[0].1 != edge);
        if i < placements.len() {
            assert(rest[i - 1] == placements[i]);
        }
    }
}

/// Topology manager that coordinates the layout of multiple machines
#[derive(Debug, Clone, Default)]
pub struct ScreenTopology {
    pub local_peer_id: String,
    pub local_displays: Vec<DisplayInfo>,
    pub neighbors: Vec<NeighborPlacement>,
    /// Bit pattern of the single-precision edge threshold in pixels
    pub edge_threshold_px: u32,
    /// Bit pattern of the single-precision corner dead-zone in pixels
    pub corner_deadzone_px: u32,
}

impl ScreenTopology {
    /// The neighbour placements, in order.
    pub open spec fn placements(&self) -> Seq<(Seq<char>, ScreenEdge, u32)> {
        self.neighbors@.map_values(|n: NeighborPlacement| placement_view(n))
    }

    pub fn new(local_peer_id: String) -> (r: Self)
        ensures
            r.local_peer_id@ == local_peer_id@,
            r.local_displays@.len() == 0,
            r.neighbors@.len() == 0,
            r.edge_threshold_px == DEFAULT_EDGE_THRESHOLD_BITS,
            r.corner_deadzone_px == DEFAULT_CORNER_DEADZONE_BITS,
    {
        ScreenTopology {
            local_peer_id,
            local_displays: Vec::new(),
            neighbors: Vec::new(),
            edge_threshold_px: DEFAULT_EDGE_THRESHOLD_BITS,
            corner_deadzone_px: DEFAULT_CORNER_DEADZONE_BITS,
        }
    }

    /// Place `peer_id` at `edge`, replacing any earlier placement of that peer.
    pub fn add_neighbor(&mut self, peer_id: String, edge: ScreenEdge)
        ensures
            final(self).placements() == placements_after_add(old(self).placements(), peer_id@, edge),
            final(self).local_peer_id == old(self).local_peer_id,
            final(self).local_displays == old(self).local_displays,
            final(self).edge_threshold_px == old(self).edge_threshold_px,
            final(self).corner_deadzone_px == old(self).corner_deadzone_px,
    {
        let ghost orig = old(self).placements();
        let ghost keep = other_peer(peer_id@);
        let mut i: usize = 0;
        let ghost mut k: int = 0;
        while i < self.neighbors.len()
            invariant
                0 <= i <= k <= orig.len(),
                self.neighbors@.len() == i + (orig.len() - k),
                self.placements().subrange(0, i as int) == orig.subrange(0, k).filter(keep),
                self.placements().subrange(i as int, self.placements().len() as int) == orig.subrange(k, orig.len() as int),
                self.local_peer_id == old(self).local_peer_id,
                self.local_displays == old(self).local_displays,
                self.edge_threshold_px == old(self).edge_threshold_px,
                self.corner_deadzone_px == old(self).corner_deadzone_px,
                orig == old(self).placements(),
                keep == other_peer(peer_id@),
            decreases self.neighbors@.len() - i,
        {
            let ghost before = self.placements();
            assert(before[i as int] == orig[k]) by {
                assert(before.subrange(i as int, before.len() as int)[0] == before[i as int]);
            }
            let same = self.neighbors[i].peer_id.eq(&peer_id);
            proof {
                reveal(Seq::filter);
                assert(orig.subrange(0, k + 1).drop_last() == orig.subrange(0, k));
                assert(orig.subrange(0, k + 1).last() == orig[k]);
                assert(keep(orig[k]) == !same);
            }
            if same {
                self.neighbors.remove(i);
                proof {
                    let after = self.placements();
                    assert(after.subrange(0, i as int) == before.subrange(0, i as int));
                    assert(after.subrange(i as int, after.len() as int) == before.subrange(i + 1, before.len() as int));
                    assert(orig.subrange(k + 1, orig.len() as int) == orig.subrange(k, orig.len() as int).subrange(1, orig.len() - k));
                    k = k + 1;
                }
            } else {
                proof {
                    assert(before.subrange(0, i + 1) == before.subrange(0, i as int).push(before[i as int]));
                    assert(orig.subrange(k + 1, orig.len() as int) == orig.subrange(k, orig.len() as int).subrange(1, orig.len() - k));
                    k = k + 1;
                }
                i = i + 1;
            }
        }
        proof {
            assert(k == orig.len());
            assert(orig.subrange(0, k) == orig);
            assert(self.placements().subrange(0, i as int) == self.placements());
        }
        self.neighbors.push(NeighborPlacement { peer_id, edge, offset_ratio: F32_ZERO_BITS });
        proof {
            let p = self.placements();
            assert(p == placements_after_add(orig, peer_id@, edge));
        }
    }

    /// The first neighbour placed at `edge`, if any.
    pub fn find_neighbor_at_edge(&self, edge: ScreenEdge) -> (r: Option<&NeighborPlacement>)
        ensures
            r matches Some(n) ==> first_neighbor_at(self.placements(), edge) == Some(n.peer_id@),
            r is None ==> first_neighbor_at(self.placements(), edge) is None,
            r matches Some(n) ==> exists|i: int|
                0 <= i < self.neighbors@.len() && self.neighbors@[i] == *n && n.edge == edge
                    && forall|j: int| 0 <= j < i ==> (#[trigger] self.neighbors@[j]).edge != edge,
            r is None ==> forall|j: int| 0 <= j < self.neighbors@.len() ==> (#[trigger] self.neighbors@[j]).edge != edge,
    {
        let mut i: usize = 0;
        while i < self.neighbors.len()
            invariant
                i <= self.neighbors@.len(),
                forall|j: int| 0 <= j < i ==> (#[trigger] self.neighbors@[j]).edge != edge,
            decreases self.neighbors@.len() - i,
        {
            if self.neighbors[i].edge == edge {
                proof {
                    assert forall|j: int| 0 <= j < i implies (#[trigger] self.placements()[j]).1 != edge by {
                        assert(self.neighbors@[j].edge != edge);
                    }
                    lemma_first_neighbor_at(self.placements(), edge, i as int);
                }
                return Some(&self.neighbors[i]);
            }
            i = i + 1;
        }
        proof {
            assert forall|j: int| 0 <= j < self.neighbors@.len() implies (#[trigger] self.placements()[j]).1 != edge by {
                assert(self.neighbors@[j].edge != edge);
            }
            lemma_first_neighbor_at(self.placements(), edge, self.neighbors@.len() as int);
        }
        None
    }
}

/// Placing a peer keeps peer ids distinct, the placed peer is found exactly once, at
/// the end, at the requested edge, and every other peer's placement is kept.
pub proof fn lemma_add_neighbor_placements(
    placements: Seq<(Seq<char>, ScreenEdge, u32)>,
    peer_id: Seq<char>,
    edge: ScreenEdge,
)
    ensures
        peers_distinct(placements) ==> peers_distinct(placements_after_add(placements, peer_id, edge)),
        placements_after_add(placements, peer_id, edge).last() == (peer_id, edge, F32_ZERO_BITS),
        forall|i: int|
            0 <= i < placements_after_add(placements, peer_id, edge).len() - 1
                ==> (#[trigger] placements_after_add(placements, peer_id, edge)[i]).0 != peer_id,
        forall|n: (Seq<char>, ScreenEdge, u32)|
            n.0 != peer_id && placements.contains(n) ==> #[trigger] placements_after_add(placements, peer_id, edge).contains(n),
{
    let kept = placements.filter(other_peer(peer_id));
    broadcast use vstd::seq_lib::group_filter_ensures;
    assert forall|n: (Seq<char>, ScreenEdge, u32)|
        n.0 != peer_id && placements.contains(n) implies #[trigger] placements_after_add(placements, peer_id, edge).contains(n) by {
        let i = choose|i: int| 0 <= i < placements.len() && placements[i] == n;
        assert(kept.contains(n));
        let j = choose|j: int| 0 <= j < kept.len() && kept[j] == n;
        assert(placements_after_add(placements, peer_id, edge)[j] == n);
    }
    if peers_distinct(placements) {
        lemma_filter_keeps_distinct(placements, other_peer(peer_id));
    }
}

/// Filtering a list of placements with distinct peers leaves the peers distinct.
proof fn lemma_filter_keeps_distinct(
    placements: Seq<(Seq<char>, ScreenEdge, u32)>,
    keep: spec_fn((Seq<char>, ScreenEdge, u32)) -> bool,
)
    requires
        peers_distinct(placements),
    ensures
        peers_distinct(placements.filter(keep)),
    decreases placements.len(),
{
    reveal(Seq::filter);
    if placements.len() > 0 {
        let rest = placements.drop_last();
        assert(peers_distinct(rest));
        lemma_filter_keeps_distinct(rest, keep);
        let f = rest.filter(keep);
        if keep(placements.last()) {
            assert forall|i: int| 0 <= i < f.len() implies f[i].0 != placements.last().0 by {
                assert(f.contains(f[i]));
                rest.lemma_filter_contains_rev(keep, f[i]);
                let j = choose|j: int| 0 <= j < rest.len() && rest[j] == f[i];
                assert(placements[j] == f[i]);
            }
        }
    }
}

} // verus!
