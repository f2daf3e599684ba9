//! The drag state machine: one grab offset per gesture, frozen at the first move.
use vstd::prelude::*;
use crate::geometry::{
    COORD_LIMIT, GraphError, Point, ViewState, ZOOM_ONE, in_range, lemma_grab_offset_tracks_pointer,
    screen_to_world, to_screen, to_world,
};
use crate::node::GpugNode;

verus! {

/// An active drag: the node, and the world-space vector from its origin to the pointer at
/// the first move.
#[derive(Clone, Copy, Debug, PartialEq, Eq, Structural)]
pub struct DragSession {
    pub node_id: u64,
    pub grab: Point,
}

/// Holds at most one drag session.
pub struct DragController {
    pub session: Option<DragSession>,
}

pub open spec fn grab_in_range(v: int) -> bool {
    -2 * COORD_LIMIT <= v <= 2 * COORD_LIMIT
}

/// Pointer position in world space, one axis.
pub open spec fn world_x(view: ViewState, container: Point, pointer: Point) -> int {
    to_world(container.x as int, view.pan.x as int, view.zoom as int, pointer.x as int)
}

pub open spec fn world_y(view: ViewState, container: Point, pointer: Point) -> int {
    to_world(container.y as int, view.pan.y as int, view.zoom as int, pointer.y as int)
}

/// On one axis, the node's screen position relative to the pointer is `-grab * zoom`,
/// rounded down by less than `zoom + 1` units (in thousandths).
pub open spec fn screen_offset_tracks_grab(
    container: int,
    pan: int,
    zoom: int,
    pointer: int,
    grab: int,
    pos: int,
) -> bool {
    -(grab * zoom) - zoom - ZOOM_ONE < ZOOM_ONE * (to_screen(container, pan, zoom, pos) - pointer)
        <= -(grab * zoom)
}

pub open spec fn pointer_in_range(view: ViewState, container: Point, pointer: Point) -> bool {
    in_range(world_x(view, container, pointer)) && in_range(world_y(view, container, pointer))
}

impl DragController {
    pub open spec fn wf(&self) -> bool {
        self.session is Some ==> grab_in_range(self.session->Some_0.grab.x as int)
            && grab_in_range(self.session->Some_0.grab.y as int)
    }

    /// Idle: no session.
    pub fn new() -> (r: Self)
        ensures
            r.session is None,
            r.wf(),
    {
        DragController { session: None }
    }

    /// Handles a pointer move while `node` is dragged. The first move captures the grab
    /// offset `screen_to_world(pointer) - node`, leaving the node where it is; later moves
    /// put the node at `screen_to_world(pointer) - grab` under the current pan and zoom. A
    /// move for another node than the session's is ignored. A pointer or resulting position
    /// out of the coordinate range is refused and changes nothing.
    pub fn drag_move(
        &mut self,
        node: &mut GpugNode,
        view: &ViewState,
        container: Point,
        pointer: Point,
    ) -> (r: Result<(), GraphError>)
        requires
            old(self).wf(),
            old(node).wf(),
            view.wf(),
        ensures
            final(self).wf(),
            final(node).wf(),
            final(node).id == old(node).id,
            final(node).name@ == old(node).name@,
            final(node).width == old(node).width,
            final(node).selected == old(node).selected,
            r is Err ==> r->Err_0 == GraphError::InvalidGeometry && *final(self) == *old(self)
                && *final(node) == *old(node),
            r is Ok && final(self).session is Some && final(self).session->Some_0.node_id == old(
                node).id ==> screen_offset_tracks_grab(
                container.x as int,
                view.pan.x as int,
                view.zoom as int,
                pointer.x as int,
                final(self).session->Some_0.grab.x as int,
                final(node).x as int,
            ) && screen_offset_tracks_grab(
                container.y as int,
                view.pan.y as int,
                view.zoom as int,
                pointer.y as int,
                final(self).session->Some_0.grab.y as int,
                final(node).y as int,
            ),
            ({
                let wx = world_x(*view, container, pointer);
                let wy = world_y(*view, container, pointer);
                match old(self).session {
                    Some(s) => if s.node_id != old(node).id {
                        r is Ok && *final(self) == *old(self) && *final(node) == *old(node)
                    } else {
                        (r is Ok <==> (pointer_in_range(*view, container, pointer) && in_range(
                            wx - s.grab.x,
                        ) && in_range(wy - s.grab.y))) && (r is Ok ==> *final(self) == *old(self)
                            && final(node).x == wx - s.grab.x && final(node).y == wy
                            - s.grab.y)
                    },
                    None => (r is Ok <==> pointer_in_range(*view, container, pointer)) && (r is Ok
                        ==> final(self).session == Some(
                        DragSession {
                            node_id: old(node).id,
                            grab: Point {
                                x: (wx - old(node).x) as i64,
                                y: (wy - old(node).y) as i64,
                            },
                        },
                    ) && *final(node) == *old(node)),
                }
            }),
    {
        let session = self.session;
        match session {
            Some(s) => {
                if s.node_id != node.id {
                    return Ok(());
                }
                match screen_to_world(view, container, pointer) {
                    None => Err(GraphError::InvalidGeometry),
                    Some(w) => {
                        let nx: i64 = w.x - s.grab.x;
                        let ny: i64 = w.y - s.grab.y;
                        if nx < -COORD_LIMIT || nx > COORD_LIMIT || ny < -COORD_LIMIT || ny
                            > COORD_LIMIT {
                            return Err(GraphError::InvalidGeometry);
                        }
                        node.x = nx;
                        node.y = ny;
                        proof {
                            lemma_grab_offset_tracks_pointer(
                                container.x as int,
                                view.pan.x as int,
                                view.zoom as int,
                                pointer.x as int,
                                s.grab.x as int,
                                node.x as int,
                            );
                            lemma_grab_offset_tracks_pointer(
                                container.y as int,
                                view.pan.y as int,
                                view.zoom as int,
                                pointer.y as int,
                                s.grab.y as int,
                                node.y as int,
                            );
                        }
                        Ok(())
                    },
                }
            },
            None => {
                match screen_to_world(view, container, pointer) {
                    None => Err(GraphError::InvalidGeometry),
                    Some(w) => {
                        let grab = Point { x: w.x - node.x, y: w.y - node.y };
                        self.session = Some(DragSession { node_id: node.id, grab });
                        proof {
                            lemma_grab_offset_tracks_pointer(
                                container.x as int,
                                view.pan.x as int,
                                view.zoom as int,
                                pointer.x as int,
                                grab.x as int,
                                node.x as int,
                            );
                            lemma_grab_offset_tracks_pointer(
                                container.y as int,
                                view.pan.y as int,
                                view.zoom as int,
                                pointer.y as int,
                                grab.y as int,
                                node.y as int,
                            );
                        }
                        Ok(())
                    },
                }
            },
        }
    }

    /// Handles a drop: the session ends when `node_id` is its node; otherwise nothing changes.
    pub fn drag_end(&mut self, node_id: u64)
        requires
            old(self).wf(),
        ensures
            final(self).wf(),
            (old(self).session is Some && old(self).session->Some_0.node_id == node_id)
                ==> final(self).session is None,
            !(old(self).session is Some && old(self).session->Some_0.node_id == node_id)
                ==> *final(self) == *old(self),
    {
        if let Some(s) = self.session {
            if s.node_id == node_id {
                self.session = None;
            }
        }
    }

    /// Drops any session, as when the drag's ownership is lost (focus lost mid-drag).
    pub fn cancel(&mut self)
        ensures
            final(self).session is None,
            final(self).wf(),
    {
        self.session = None;
    }
}

} // verus!
