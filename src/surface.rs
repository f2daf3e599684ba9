//! The graph surface: owns the nodes, the edges, the view and the drag controller.
use vstd::prelude::*;
use crate::drag::{DragController, pointer_in_range, world_x, world_y};
use crate::edge::{GraphEdge, route};
use crate::geometry::{
    GraphError, Point, ViewState, in_range, in_wide_range, scale_length, to_screen, world_to_screen,
};
use crate::node::{MAX_LABEL_CHARS, NODE_HEIGHT, label_width, node_width};
use crate::node::GpugNode;

verus! {

pub open spec fn ids_unique(nodes: Seq<GpugNode>) -> bool {
    forall|i: int, j: int|
        0 <= i < nodes.len() && 0 <= j < nodes.len() && #[trigger] nodes[i].id == #[trigger] nodes[j].id
            ==> i == j
}

pub open spec fn has_node(nodes: Seq<GpugNode>, id: u64) -> bool {
    exists|i: int| 0 <= i < nodes.len() && #[trigger] nodes[i].id == id
}

/// Both endpoints exist and the path is the route between them.
pub open spec fn edge_routed(nodes: Seq<GpugNode>, e: GraphEdge) -> bool {
    has_node(nodes, e.source as u64) && has_node(nodes, e.target as u64) && forall|i: int, j: int|
        0 <= i < nodes.len() && 0 <= j < nodes.len() && #[trigger] nodes[i].id == e.source as u64
            && #[trigger] nodes[j].id == e.target as u64 ==> e.path@ == route(nodes[i], nodes[j])
}

pub open spec fn incident(e: GraphEdge, id: u64) -> bool {
    e.source as u64 == id || e.target as u64 == id
}

pub struct GraphSurface {
    pub nodes: Vec<GpugNode>,
    pub edges: Vec<GraphEdge>,
    pub view: ViewState,
    pub drag: DragController,
}

/// Index of the node with `id`.
pub fn find_node(nodes: &Vec<GpugNode>, id: u64) -> (r: Option<usize>)
    ensures
        r is Some ==> r->Some_0 < nodes@.len() && nodes@[r->Some_0 as int].id == id,
        r is None <==> !has_node(nodes@, id),
{
    let mut i: usize = 0;
    while i < nodes.len()
        invariant
            i <= nodes@.len(),
            forall|k: int| 0 <= k < i ==> nodes@[k].id != id,
        decreases nodes@.len() - i,
    {
        if nodes[i].id == id {
            return Some(i);
        }
        i = i + 1;
    }
    None
}

impl GraphSurface {
    pub open spec fn wf(&self) -> bool {
        &&& self.view.wf()
        &&& self.drag.wf()
        &&& ids_unique(self.nodes@)
        &&& forall|i: int| 0 <= i < self.nodes@.len() ==> #[trigger] self.nodes@[i].wf()
        &&& forall|k: int|
            0 <= k < self.edges@.len() ==> edge_routed(self.nodes@, #[trigger] self.edges@[k])
    }

    /// An empty surface under `view`, with no drag in progress.
    pub fn new(view: ViewState) -> (r: Self)
        requires
            view.wf(),
        ensures
            r.wf(),
            r.nodes@.len() == 0,
            r.edges@.len() == 0,
            r.view == view,
            r.drag.session is None,
    {
        GraphSurface { nodes: Vec::new(), edges: Vec::new(), view, drag: DragController::new() }
    }

    /// Adds an unselected node; a taken id or a position or label out of range is refused.
    pub fn add_node(&mut self, id: u64, name: String, x: i64, y: i64) -> (r: Result<(), GraphError>)
        requires
            old(self).wf(),
        ensures
            final(self).wf(),
            has_node(old(self).nodes@, id) ==> r is Err && r->Err_0 == GraphError::DuplicateId,
            !has_node(old(self).nodes@, id) ==> (r is Ok <==> (crate::geometry::in_range(x as int)
                && crate::geometry::in_range(y as int) && name@.len()
                <= crate::node::MAX_LABEL_CHARS)),
            r is Err && !has_node(old(self).nodes@, id) ==> r->Err_0 == GraphError::InvalidGeometry,
            r is Err ==> *final(self) == *old(self),
            r is Ok ==> final(self).nodes@.len() == old(self).nodes@.len() + 1 && final(self).nodes@.drop_last() == old(self).nodes@ && final(self).nodes@.last().id == id
                && final(self).nodes@.last().name@ == name@ && final(self).nodes@.last().x == x
                && final(self).nodes@.last().y == y && !final(self).nodes@.last().selected,
            final(self).edges == old(self).edges,
            final(self).view == old(self).view,
            final(self).drag == old(self).drag,
    {
        if find_node(&self.nodes, id).is_some() {
            return Err(GraphError::DuplicateId);
        }
        let node = match GpugNode::new(id, name, x, y) {
            Ok(n) => n,
            Err(e) => {
                return Err(e);
            },
        };
        let ghost old_nodes = self.nodes@;
        self.nodes.push(node);
        proof {
            assert(self.nodes@.drop_last() =~= old_nodes);
            assert forall|k: int| 0 <= k < self.edges@.len() implies edge_routed(
                self.nodes@,
                #[trigger] self.edges@[k],
            ) by {
                let e = self.edges@[k];
                assert(edge_routed(old_nodes, e));
                let si = choose|i: int| 0 <= i < old_nodes.len() && #[trigger] old_nodes[i].id == e.source as u64;
                let ti = choose|i: int| 0 <= i < old_nodes.len() && #[trigger] old_nodes[i].id == e.target as u64;
                assert(self.nodes@[si].id == e.source as u64);
                assert(self.nodes@[ti].id == e.target as u64);
            }
        }
        Ok(())
    }

    /// Adds an edge between two existing nodes and routes it; a missing endpoint is refused.
    pub fn add_edge(&mut self, source: usize, target: usize) -> (r: Result<(), GraphError>)
        requires
            old(self).wf(),
        ensures
            final(self).wf(),
            r is Ok <==> (has_node(old(self).nodes@, source as u64) && has_node(old(self).nodes@, target as u64)),
            r is Err ==> r->Err_0 == GraphError::DanglingEdge && *final(self) == *old(self),
            r is Ok ==> final(self).edges@.len() == old(self).edges@.len() + 1 && final(self).edges@.drop_last() == old(self).edges@ && final(self).edges@.last().source == source
                && final(self).edges@.last().target == target,
            final(self).nodes == old(self).nodes,
            final(self).view == old(self).view,
            final(self).drag == old(self).drag,
    {
        let si = match find_node(&self.nodes, source as u64) {
            Some(i) => i,
            None => {
                return Err(GraphError::DanglingEdge);
            },
        };
        let ti = match find_node(&self.nodes, target as u64) {
            Some(i) => i,
            None => {
                return Err(GraphError::DanglingEdge);
            },
        };
        let mut e = GraphEdge::new(source, target);
        let routed = e.reroute(&self.nodes[si], &self.nodes[ti]);
        let ghost old_edges = self.edges@;
        self.edges.push(e);
        proof {
            assert(routed);
            assert(self.edges@.drop_last() =~= old_edges);
            assert(edge_routed(self.nodes@, self.edges@.last()));
            assert forall|k: int| 0 <= k < self.edges@.len() implies edge_routed(
                self.nodes@,
                #[trigger] self.edges@[k],
            ) by {
                if k < old_edges.len() {
                    assert(self.edges@[k] == old_edges[k]);
                }
            }
        }
        Ok(())
    }
}

impl GraphSurface {
    /// Handles a pointer move while node `id` is dragged (see `DragController::drag_move`),
    /// then reroutes the edges that touch the node. Edges that do not touch it keep their
    /// paths. An unknown id is refused.
    pub fn drag_move(&mut self, id: u64, pointer: Point, container: Point) -> (r: Result<
        (),
        GraphError,
    >)
        requires
            old(self).wf(),
        ensures
            final(self).wf(),
            !has_node(old(self).nodes@, id) ==> r is Err && r->Err_0 == GraphError::UnknownNode,
            has_node(old(self).nodes@, id) ==> (r is Ok <==> match old(self).drag.session {
                Some(s) => s.node_id != id || (pointer_in_range(old(self).view, container, pointer)
                    && in_range(world_x(old(self).view, container, pointer) - s.grab.x)
                    && in_range(world_y(old(self).view, container, pointer) - s.grab.y)),
                None => pointer_in_range(old(self).view, container, pointer),
            }),
            r is Err ==> final(self).nodes@ == old(self).nodes@ && final(self).edges == old(
                self).edges && final(self).drag == old(self).drag,
            r is Err && has_node(old(self).nodes@, id) ==> r->Err_0
                == GraphError::InvalidGeometry,
            final(self).view == old(self).view,
            final(self).nodes@.len() == old(self).nodes@.len(),
            final(self).edges@.len() == old(self).edges@.len(),
            forall|i: int|
                0 <= i < old(self).nodes@.len() && old(self).nodes@[i].id != id ==> final(
                self).nodes@[i] == #[trigger] old(self).nodes@[i],
            forall|i: int|
                0 <= i < old(self).nodes@.len() ==> final(self).nodes@[i].id == old(self).nodes@[i].id
                    && final(self).nodes@[i].name@ == old(self).nodes@[i].name@ && #[trigger] final(
                self).nodes@[i].width == old(self).nodes@[i].width,
            forall|k: int|
                0 <= k < old(self).edges@.len() && !incident(old(self).edges@[k], id) ==> final(
                self).edges@[k] == #[trigger] old(self).edges@[k],
            forall|k: int|
                0 <= k < old(self).edges@.len() ==> final(self).edges@[k].source == old(self).edges@[k].source
                    && #[trigger] final(self).edges@[k].target == old(self).edges@[k].target,
            old(self).drag.session is Some && old(self).drag.session->Some_0.node_id != id
                ==> final(self).nodes@ == old(self).nodes@ && final(self).drag == old(self).drag,
            r is Ok && !(old(self).drag.session is Some && old(self).drag.session->Some_0.node_id
                != id) ==> final(self).drag.session is Some && final(self).drag.session->Some_0.node_id
                == id,
            r is Ok && old(self).drag.session is None ==> final(self).nodes@ == old(self).nodes@,
            r is Ok && final(self).drag.session is Some && final(self).drag.session->Some_0.node_id
                == id ==> forall|i: int|
                0 <= i < final(self).nodes@.len() && #[trigger] final(self).nodes@[i].id == id
                    ==> world_x(final(self).view, container, pointer) - final(self).nodes@[i].x
                    == final(self).drag.session->Some_0.grab.x && world_y(
                    final(self).view,
                    container,
                    pointer,
                ) - final(self).nodes@[i].y == final(self).drag.session->Some_0.grab.y,
            r is Ok && old(self).drag.session is Some ==> final(self).drag == old(self).drag,
    {
        let i = match find_node(&self.nodes, id) {
            Some(i) => i,
            None => {
                return Err(GraphError::UnknownNode);
            },
        };
        if let Some(s) = self.drag.session {
            if s.node_id != id {
                return Ok(());
            }
        }
        let ghost old_nodes = self.nodes@;
        let ghost old_edges = self.edges@;
        let mut node = self.nodes.remove(i);
        let res = self.drag.drag_move(&mut node, &self.view, container, pointer);
        self.nodes.insert(i, node);
        proof {
            assert(self.nodes@ =~= old_nodes.update(i as int, self.nodes@[i as int]));
        }
        if res.is_err() {
            proof {
                assert(self.nodes@ =~= old_nodes);
            }
            return res;
        }
        self.reroute_incident(i, Ghost(old_nodes));
        Ok(())
    }

    /// Handles a drop for node `node_id`; see `DragController::drag_end`.
    pub fn drag_end(&mut self, node_id: u64)
        requires
            old(self).wf(),
        ensures
            final(self).wf(),
            final(self).nodes == old(self).nodes,
            final(self).edges == old(self).edges,
            final(self).view == old(self).view,
            (old(self).drag.session is Some && old(self).drag.session->Some_0.node_id == node_id)
                ==> final(self).drag.session is None,
            !(old(self).drag.session is Some && old(self).drag.session->Some_0.node_id == node_id)
                ==> *final(self) == *old(self),
    {
        self.drag.drag_end(node_id);
    }

    /// Replaces pan and zoom; a zero or oversized zoom, or a pan out of range, is refused.
    pub fn set_view(&mut self, pan: Point, zoom: u32) -> (r: Result<(), GraphError>)
        requires
            old(self).wf(),
        ensures
            final(self).wf(),
            r is Ok <==> (0 < zoom <= crate::geometry::ZOOM_MAX && pan.wf()),
            r is Ok ==> final(self).view == (ViewState { pan, zoom }),
            r is Err ==> r->Err_0 == GraphError::InvalidGeometry && final(self).view == old(self).view,
            final(self).nodes == old(self).nodes,
            final(self).edges == old(self).edges,
            final(self).drag == old(self).drag,
    {
        match ViewState::new(pan, zoom) {
            Ok(v) => {
                self.view = v;
                Ok(())
            },
            Err(e) => Err(e),
        }
    }
}

impl GraphSurface {
    /// Recomputes the paths of the edges that touch node `i`, after that node changed
    /// geometry from `old_nodes`; the other edges are left as they are.
    fn reroute_incident(&mut self, i: usize, Ghost(old_nodes): Ghost<Seq<GpugNode>>)
        requires
            old(self).view.wf(),
            old(self).drag.wf(),
            i < old_nodes.len(),
            old(self).nodes@.len() == old_nodes.len(),
            old(self).nodes@[i as int].id == old_nodes[i as int].id,
            forall|m: int| 0 <= m < old_nodes.len() && m != i ==> old(self).nodes@[m] == old_nodes[m],
            ids_unique(old_nodes),
            ids_unique(old(self).nodes@),
            forall|m: int| 0 <= m < old(self).nodes@.len() ==> #[trigger] old(self).nodes@[m].wf(),
            forall|k: int|
                0 <= k < old(self).edges@.len() ==> edge_routed(old_nodes, #[trigger] old(self).edges@[k]),
        ensures
            final(self).wf(),
            final(self).view == old(self).view,
            final(self).drag == old(self).drag,
            final(self).nodes@ == old(self).nodes@,
            final(self).edges@.len() == old(self).edges@.len(),
            forall|k: int|
                0 <= k < old(self).edges@.len() && !incident(old(self).edges@[k], old_nodes[i as int].id) ==> final(
                self).edges@[k] == #[trigger] old(self).edges@[k],
            forall|k: int|
                0 <= k < old(self).edges@.len() ==> final(self).edges@[k].source == old(self).edges@[k].source
                    && #[trigger] final(self).edges@[k].target == old(self).edges@[k].target,
    {
        let ghost view0 = self.view;
        let ghost drag0 = self.drag;
        let ghost nodes1 = self.nodes@;
        let ghost old_edges = self.edges@;
        let id = self.nodes[i].id;
        let mut j: usize = 0;
        while j < self.edges.len()
            invariant
                self.view == view0,
                self.drag == drag0,
                self.nodes@ == nodes1,
                self.view.wf(),
                self.drag.wf(),
                i < old_nodes.len(),
                self.nodes@.len() == old_nodes.len(),
                self.nodes@[i as int].id == id,
                old_nodes[i as int].id == id,
                forall|m: int| 0 <= m < old_nodes.len() && m != i ==> self.nodes@[m] == old_nodes[m],
                ids_unique(old_nodes),
                ids_unique(self.nodes@),
                forall|m: int| 0 <= m < self.nodes@.len() ==> #[trigger] self.nodes@[m].wf(),
                self.edges@.len() == old_edges.len(),
                forall|k: int|
                    0 <= k < old_edges.len() ==> edge_routed(old_nodes, #[trigger] old_edges[k]),
                forall|k: int|
                    0 <= k < j ==> edge_routed(self.nodes@, #[trigger] self.edges@[k]),
                forall|k: int| j <= k < old_edges.len() ==> #[trigger] self.edges@[k] == old_edges[k],
                forall|k: int|
                    0 <= k < old_edges.len() && !incident(old_edges[k], id) ==> #[trigger] self.edges@[k]
                        == old_edges[k],
                forall|k: int|
                    0 <= k < old_edges.len() ==> self.edges@[k].source == old_edges[k].source
                        && #[trigger] self.edges@[k].target == old_edges[k].target,
            decreases old_edges.len() - j,
        {
            let ghost e0 = old_edges[j as int];
            proof {
                assert(edge_routed(old_nodes, e0));
                let si = choose|m: int| 0 <= m < old_nodes.len() && #[trigger] old_nodes[m].id == e0.source as u64;
                let ti = choose|m: int| 0 <= m < old_nodes.len() && #[trigger] old_nodes[m].id == e0.target as u64;
                if si == i { } else { assert(self.nodes@[si] == old_nodes[si]); }
                if ti == i { } else { assert(self.nodes@[ti] == old_nodes[ti]); }
                assert(self.nodes@[si].id == e0.source as u64);
                assert(self.nodes@[ti].id == e0.target as u64);
            }
            if self.edges[j].source as u64 == id || self.edges[j].target as u64 == id {
                let si = match find_node(&self.nodes, self.edges[j].source as u64) {
                    Some(m) => m,
                    None => { return; },
                };
                let ti = match find_node(&self.nodes, self.edges[j].target as u64) {
                    Some(m) => m,
                    None => { return; },
                };
                let ghost prev = self.edges@;
                let mut e = self.edges.remove(j);
                let routed = e.reroute(&self.nodes[si], &self.nodes[ti]);
                self.edges.insert(j, e);
                proof {
                    assert(self.edges@ =~= prev.update(j as int, self.edges@[j as int]));
                    assert(edge_routed(self.nodes@, self.edges@[j as int]));
                }
            } else {
                proof {
                    assert forall|a: int, b: int|
                        0 <= a < self.nodes@.len() && 0 <= b < self.nodes@.len()
                            && #[trigger] self.nodes@[a].id == e0.source as u64
                            && #[trigger] self.nodes@[b].id == e0.target as u64
                        implies e0.path@ == route(self.nodes@[a], self.nodes@[b]) by {
                        assert(a != i);
                        assert(b != i);
                        assert(old_nodes[a] == self.nodes@[a]);
                        assert(old_nodes[b] == self.nodes@[b]);
                    }
                    assert(edge_routed(self.nodes@, self.edges@[j as int]));
                }
            }
            j = j + 1;
        }
    }
}

impl GraphSurface {
    /// Marks node `id` selected or not; nothing else changes. An unknown id is refused.
    pub fn set_selected(&mut self, id: u64, selected: bool) -> (r: Result<(), GraphError>)
        requires
            old(self).wf(),
        ensures
            final(self).wf(),
            r is Ok <==> has_node(old(self).nodes@, id),
            r is Err ==> r->Err_0 == GraphError::UnknownNode && final(self).nodes@ == old(self).nodes@,
            final(self).nodes@.len() == old(self).nodes@.len(),
            forall|i: int|
                0 <= i < old(self).nodes@.len() && old(self).nodes@[i].id != id ==> final(
                self).nodes@[i] == #[trigger] old(self).nodes@[i],
            forall|i: int|
                0 <= i < old(self).nodes@.len() && #[trigger] old(self).nodes@[i].id == id ==> {
                    let (n0, n1) = (old(self).nodes@[i], final(self).nodes@[i]);
                    n1.selected == selected && n1.id == n0.id && n1.name@ == n0.name@ && n1.x == n0.x
                        && n1.y == n0.y && n1.width == n0.width
                },
            final(self).edges == old(self).edges,
            final(self).view == old(self).view,
            final(self).drag == old(self).drag,
    {
        let i = match find_node(&self.nodes, id) {
            Some(i) => i,
            None => {
                return Err(GraphError::UnknownNode);
            },
        };
        let ghost old_nodes = self.nodes@;
        let mut node = self.nodes.remove(i);
        node.selected = selected;
        self.nodes.insert(i, node);
        proof {
            assert(self.nodes@ =~= old_nodes.update(i as int, self.nodes@[i as int]));
            assert forall|m: int| 0 <= m < self.nodes@.len() implies #[trigger] self.nodes@[m].wf() by {
                assert(old_nodes[m].wf());
            }
            assert(ids_unique(self.nodes@)) by {
                assert forall|a: int, b: int|
                    0 <= a < self.nodes@.len() && 0 <= b < self.nodes@.len() && #[trigger] self.nodes@[a].id
                        == #[trigger] self.nodes@[b].id implies a == b by {
                    assert(old_nodes[a].id == self.nodes@[a].id);
                    assert(old_nodes[b].id == self.nodes@[b].id);
                }
            }
            assert forall|k: int| 0 <= k < self.edges@.len() implies edge_routed(
                self.nodes@,
                #[trigger] self.edges@[k],
            ) by {
                let e = self.edges@[k];
                assert(edge_routed(old_nodes, e));
                let si = choose|m: int| 0 <= m < old_nodes.len() && #[trigger] old_nodes[m].id == e.source as u64;
                let ti = choose|m: int| 0 <= m < old_nodes.len() && #[trigger] old_nodes[m].id == e.target as u64;
                assert(self.nodes@[si].id == e.source as u64);
                assert(self.nodes@[ti].id == e.target as u64);
                assert forall|a: int, b: int|
                    0 <= a < self.nodes@.len() && 0 <= b < self.nodes@.len()
                        && #[trigger] self.nodes@[a].id == e.source as u64
                        && #[trigger] self.nodes@[b].id == e.target as u64
                    implies e.path@ == route(self.nodes@[a], self.nodes@[b]) by {
                    assert(old_nodes[a].right_port_spec() == self.nodes@[a].right_port_spec());
                    assert(old_nodes[b].left_port_spec() == self.nodes@[b].left_port_spec());
                    assert(route(old_nodes[a], old_nodes[b]) =~= route(self.nodes@[a], self.nodes@[b]));
                }
            }
        }
        Ok(())
    }

    /// Gives node `id` a new label, recomputes its width and reroutes the edges that touch
    /// it. An unknown id, or a label too long for the coordinate range, is refused.
    pub fn set_label(&mut self, id: u64, name: String) -> (r: Result<(), GraphError>)
        requires
            old(self).wf(),
        ensures
            final(self).wf(),
            !has_node(old(self).nodes@, id) ==> r is Err && r->Err_0 == GraphError::UnknownNode,
            has_node(old(self).nodes@, id) ==> (r is Ok <==> name@.len() <= MAX_LABEL_CHARS),
            r is Err && has_node(old(self).nodes@, id) ==> r->Err_0 == GraphError::InvalidGeometry,
            r is Err ==> final(self).nodes@ == old(self).nodes@ && final(self).edges == old(
                self).edges,
            final(self).nodes@.len() == old(self).nodes@.len(),
            forall|i: int|
                0 <= i < old(self).nodes@.len() && old(self).nodes@[i].id != id ==> final(
                self).nodes@[i] == #[trigger] old(self).nodes@[i],
            r is Ok ==> forall|i: int|
                0 <= i < old(self).nodes@.len() && #[trigger] old(self).nodes@[i].id == id ==> {
                    let (n0, n1) = (old(self).nodes@[i], final(self).nodes@[i]);
                    n1.name@ == name@ && n1.width == node_width(name@.len() as int) && n1.id == n0.id
                        && n1.x == n0.x && n1.y == n0.y && n1.selected == n0.selected
                },
            final(self).edges@.len() == old(self).edges@.len(),
            forall|k: int|
                0 <= k < old(self).edges@.len() && !incident(old(self).edges@[k], id) ==> final(
                self).edges@[k] == #[trigger] old(self).edges@[k],
            final(self).view == old(self).view,
            final(self).drag == old(self).drag,
    {
        let i = match find_node(&self.nodes, id) {
            Some(i) => i,
            None => {
                return Err(GraphError::UnknownNode);
            },
        };
        let width = match label_width(name.as_str()) {
            Some(w) => w,
            None => {
                return Err(GraphError::InvalidGeometry);
            },
        };
        let ghost old_nodes = self.nodes@;
        let mut node = self.nodes.remove(i);
        node.name = name;
        node.width = width;
        self.nodes.insert(i, node);
        proof {
            assert(self.nodes@ =~= old_nodes.update(i as int, self.nodes@[i as int]));
            assert forall|m: int| 0 <= m < self.nodes@.len() implies #[trigger] self.nodes@[m].wf() by {
                assert(old_nodes[m].wf());
            }
            assert(ids_unique(self.nodes@)) by {
                assert forall|a: int, b: int|
                    0 <= a < self.nodes@.len() && 0 <= b < self.nodes@.len() && #[trigger] self.nodes@[a].id
                        == #[trigger] self.nodes@[b].id implies a == b by {
                    assert(old_nodes[a].id == self.nodes@[a].id);
                    assert(old_nodes[b].id == self.nodes@[b].id);
                }
            }
        }
        self.reroute_incident(i, Ghost(old_nodes));
        Ok(())
    }
}

/// What the renderer draws for one node, in screen space.
pub struct NodeFrame {
    pub id: u64,
    pub origin: Point,
    pub width: i64,
    pub height: i64,
    pub label: String,
    pub selected: bool,
}

/// What the renderer draws for one edge: its waypoints in screen space.
pub struct EdgeFrame {
    pub source: usize,
    pub target: usize,
    pub points: Vec<Point>,
}

/// Screen position of a world point, the container offset folded into the pan.
pub open spec fn on_screen(view: ViewState, w: Point) -> Point {
    Point {
        x: to_screen(0, view.pan.x as int, view.zoom as int, w.x as int) as i64,
        y: to_screen(0, view.pan.y as int, view.zoom as int, w.y as int) as i64,
    }
}

impl GraphSurface {
    /// The node frames, one per node in order, under the current view.
    pub fn render_nodes(&self) -> (r: Vec<NodeFrame>)
        requires
            self.wf(),
        ensures
            r@.len() == self.nodes@.len(),
            forall|i: int|
                0 <= i < r@.len() ==> {
                    let n = self.nodes@[i];
                    let f = #[trigger] r@[i];
                    &&& f.id == n.id
                    &&& f.origin == on_screen(self.view, Point { x: n.x, y: n.y })
                    &&& f.width == n.width * self.view.zoom / 1000
                    &&& f.height == NODE_HEIGHT * self.view.zoom / 1000
                    &&& f.label@ == n.name@
                    &&& f.selected == n.selected
                },
    {
        let mut out: Vec<NodeFrame> = Vec::new();
        let mut i: usize = 0;
        while i < self.nodes.len()
            invariant
                self.wf(),
                i <= self.nodes@.len(),
                out@.len() == i,
                forall|k: int|
                    0 <= k < i ==> {
                        let n = self.nodes@[k];
                        let f = #[trigger] out@[k];
                        &&& f.id == n.id
                        &&& f.origin == on_screen(self.view, Point { x: n.x, y: n.y })
                        &&& f.width == n.width * self.view.zoom / 1000
                        &&& f.height == NODE_HEIGHT * self.view.zoom / 1000
                        &&& f.label@ == n.name@
                        &&& f.selected == n.selected
                    },
            decreases self.nodes@.len() - i,
        {
            let n = &self.nodes[i];
            assert(n.wf());
            let frame = NodeFrame {
                id: n.id,
                origin: world_to_screen(&self.view, Point { x: 0, y: 0 }, Point { x: n.x, y: n.y }),
                width: scale_length(&self.view, n.width),
                height: scale_length(&self.view, NODE_HEIGHT),
                label: n.name.clone(),
                selected: n.selected,
            };
            out.push(frame);
            i = i + 1;
        }
        out
    }

    /// The edge frames, one per edge in order, each path mapped to screen space.
    pub fn render_edges(&self) -> (r: Vec<EdgeFrame>)
        requires
            self.wf(),
        ensures
            r@.len() == self.edges@.len(),
            forall|k: int|
                0 <= k < r@.len() ==> {
                    let e = self.edges@[k];
                    let f = #[trigger] r@[k];
                    &&& f.source == e.source
                    &&& f.target == e.target
                    &&& f.points@ == e.path@.map_values(|p: Point| on_screen(self.view, p))
                },
    {
        let mut out: Vec<EdgeFrame> = Vec::new();
        let mut k: usize = 0;
        while k < self.edges.len()
            invariant
                self.wf(),
                k <= self.edges@.len(),
                out@.len() == k,
                forall|m: int|
                    0 <= m < k ==> {
                        let e = self.edges@[m];
                        let f = #[trigger] out@[m];
                        &&& f.source == e.source
                        &&& f.target == e.target
                        &&& f.points@ == e.path@.map_values(|p: Point| on_screen(self.view, p))
                    },
            decreases self.edges@.len() - k,
        {
            let e = &self.edges[k];
            proof {
                assert(edge_routed(self.nodes@, self.edges@[k as int]));
                let si = choose|m: int| 0 <= m < self.nodes@.len() && #[trigger] self.nodes@[m].id == e.source as u64;
                let ti = choose|m: int| 0 <= m < self.nodes@.len() && #[trigger] self.nodes@[m].id == e.target as u64;
                assert(self.nodes@[si].wf());
                assert(self.nodes@[ti].wf());
                assert(e.path@ == route(self.nodes@[si], self.nodes@[ti]));
                assert(in_wide_range(e.path@[0].y as int));
                assert(in_wide_range(e.path@[1].y as int));
            }
            let mut points: Vec<Point> = Vec::new();
            let mut j: usize = 0;
            while j < e.path.len()
                invariant
                    self.wf(),
                    k < self.edges@.len(),
                    *e == self.edges@[k as int],
                    j <= e.path@.len(),
                    forall|q: int|
                        0 <= q < e.path@.len() ==> in_wide_range(#[trigger] e.path@[q].x as int),
                    forall|q: int|
                        0 <= q < e.path@.len() ==> in_wide_range(#[trigger] e.path@[q].y as int),
                    points@.len() == j,
                    forall|q: int| 0 <= q < j ==> #[trigger] points@[q] == on_screen(self.view, e.path@[q]),
                decreases e.path@.len() - j,
            {
                points.push(world_to_screen(&self.view, Point { x: 0, y: 0 }, e.path[j]));
                j = j + 1;
            }
            proof {
                assert(points@ =~= e.path@.map_values(|p: Point| on_screen(self.view, p)));
            }
            out.push(EdgeFrame { source: e.source, target: e.target, points });
            k = k + 1;
        }
        out
    }
}

} // verus!
