//! Edges between nodes, with a path recomputed from the nodes' ports.
use vstd::prelude::*;
use crate::geometry::Point;
use crate::node::GpugNode;

verus! {

/// An edge from node `source` to node `target` (node ids), with its waypoints in world space.
pub struct GraphEdge {
    pub source: usize,
    pub target: usize,
    pub path: Vec<Point>,
}

/// The straight route: from the source's right port to the target's left port.
pub open spec fn route(source: GpugNode, target: GpugNode) -> Seq<Point> {
    seq![source.right_port_spec(), target.left_port_spec()]
}

impl GraphEdge {
    /// An edge whose path has not been routed yet.
    pub fn new(source: usize, target: usize) -> (r: Self)
        ensures
            r.source == source,
            r.target == target,
            r.path@.len() == 0,
    {
        GraphEdge { source, target, path: Vec::new() }
    }

    /// Whether `source` and `target` are this edge's two nodes.
    pub open spec fn connects(&self, source: GpugNode, target: GpugNode) -> bool {
        source.id == self.source as u64 && target.id == self.target as u64
    }

    /// Recomputes the path from the two nodes' current geometry. Nodes other than this
    /// edge's own leave it untouched, and `false` is returned.
    pub fn reroute(&mut self, source: &GpugNode, target: &GpugNode) -> (r: bool)
        requires
            source.wf(),
            target.wf(),
        ensures
            r == old(self).connects(*source, *target),
            r ==> final(self).source == old(self).source && final(self).target == old(
                self,
            ).target && final(self).path@ == route(*source, *target),
            !r ==> *final(self) == *old(self),
    {
        if source.id != self.source as u64 || target.id != self.target as u64 {
            return false;
        }
        let mut path: Vec<Point> = Vec::new();
        path.push(source.right_port());
        path.push(target.left_port());
        self.path = path;
        proof {
            assert(self.path@ =~= route(*source, *target));
        }
        true
    }
}

/// Moving an edge's source node and rerouting changes the path's first point to the
/// source's new right port and keeps its last point, the target's left port.
pub proof fn lemma_reroute_after_source_move(
    s0: GpugNode,
    s1: GpugNode,
    t: GpugNode,
    before: Seq<Point>,
    after: Seq<Point>,
)
    requires
        before == route(s0, t),
        after == route(s1, t),
    ensures
        after[0] == s1.right_port_spec(),
        after[after.len() - 1] == before[before.len() - 1],
        after[after.len() - 1] == t.left_port_spec(),
{
}

} // verus!
