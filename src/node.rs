//! A node's logical state and its size-from-label rule.
use vstd::prelude::*;
use crate::geometry::{COORD_LIMIT, GraphError, Point, in_range};

verus! {

/// Narrowest a node can be.
pub const MIN_WIDTH: i64 = 800;

/// Width taken by one character of the label.
pub const CHAR_WIDTH: i64 = 72;

/// Horizontal padding around the label, both sides together.
pub const PADDING: i64 = 240;

/// Height of every node.
pub const NODE_HEIGHT: i64 = 320;

/// Longest label, in characters, whose node still fits the coordinate range.
pub const MAX_LABEL_CHARS: u64 = 13888888885;

/// Width of a node whose label has `n` characters.
pub open spec fn node_width(n: int) -> int {
    if n * CHAR_WIDTH + PADDING > MIN_WIDTH {
        n * CHAR_WIDTH + PADDING
    } else {
        MIN_WIDTH as int
    }
}

/// Width of the node for `label`; `None` when the label is too long for the coordinate range.
pub fn label_width(label: &str) -> (r: Option<i64>)
    ensures
        r is Some <==> label@.len() <= MAX_LABEL_CHARS,
        r is Some ==> r->Some_0 == node_width(label@.len() as int),
        r is Some ==> MIN_WIDTH <= r->Some_0 <= COORD_LIMIT,
{
    let n: usize = label.unicode_len();
    if n as u64 > MAX_LABEL_CHARS {
        None
    } else {
        let w: i64 = (n as i64) * CHAR_WIDTH + PADDING;
        if w > MIN_WIDTH {
            Some(w)
        } else {
            Some(MIN_WIDTH)
        }
    }
}

/// Labels past the minimum-width length give strictly wider nodes as they grow; shorter
/// labels all give the minimum width.
pub proof fn lemma_width_monotonic(n1: int, n2: int)
    requires
        0 <= n1,
        0 <= n2,
    ensures
        n1 < n2 && n1 * CHAR_WIDTH + PADDING > MIN_WIDTH ==> node_width(n1) < node_width(n2),
        n1 * CHAR_WIDTH + PADDING <= MIN_WIDTH ==> node_width(n1) == MIN_WIDTH,
        n1 <= n2 ==> node_width(n1) <= node_width(n2),
{
}

/// A labelled node of the graph, positioned in world space.
pub struct GpugNode {
    pub id: u64,
    pub name: String,
    pub x: i64,
    pub y: i64,
    pub selected: bool,
    /// Derived from `name` by the sizing rule.
    pub width: i64,
}

impl GpugNode {
    /// Position in range and width following the label.
    pub open spec fn wf(&self) -> bool {
        in_range(self.x as int) && in_range(self.y as int) && self.name@.len() <= MAX_LABEL_CHARS
            && self.width == node_width(self.name@.len() as int)
    }

    pub open spec fn left_port_spec(&self) -> Point {
        Point { x: self.x, y: (self.y + NODE_HEIGHT / 2) as i64 }
    }

    pub open spec fn right_port_spec(&self) -> Point {
        Point { x: (self.x + self.width) as i64, y: (self.y + NODE_HEIGHT / 2) as i64 }
    }

    /// Builds an unselected node with its width computed from the label.
    pub fn new(id: u64, name: String, x: i64, y: i64) -> (r: Result<GpugNode, GraphError>)
        ensures
            r is Ok <==> (in_range(x as int) && in_range(y as int) && name@.len()
                <= MAX_LABEL_CHARS),
            r is Ok ==> r->Ok_0.wf() && r->Ok_0.id == id && r->Ok_0.name@ == name@ && r->Ok_0.x
                == x && r->Ok_0.y == y && !r->Ok_0.selected,
            r is Err ==> r->Err_0 == GraphError::InvalidGeometry,
    {
        if x < -COORD_LIMIT || x > COORD_LIMIT || y < -COORD_LIMIT || y > COORD_LIMIT {
            return Err(GraphError::InvalidGeometry);
        }
        match label_width(name.as_str()) {
            None => Err(GraphError::InvalidGeometry),
            Some(width) => Ok(GpugNode { id, name, x, y, selected: false, width }),
        }
    }

    /// Incoming port: middle of the left side.
    pub fn left_port(&self) -> (r: Point)
        requires
            self.wf(),
        ensures
            r == self.left_port_spec(),
    {
        Point { x: self.x, y: self.y + NODE_HEIGHT / 2 }
    }

    /// Outgoing port: middle of the right side.
    pub fn right_port(&self) -> (r: Point)
        requires
            self.wf(),
        ensures
            r == self.right_port_spec(),
    {
        Point { x: self.x + self.width, y: self.y + NODE_HEIGHT / 2 }
    }
}

} // verus!
