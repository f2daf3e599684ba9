//! Mapping between screen space and world space under the current pan and zoom.
use vstd::prelude::*;
use vstd::arithmetic::div_mod::{lemma_fundamental_div_mod, lemma_mod_bound};

verus! {

/// Zoom is held in thousandths: this value stands for a zoom of 1.
pub const ZOOM_ONE: i64 = 1000;

/// The largest zoom accepted (a magnification of 1000).
pub const ZOOM_MAX: u32 = 1000000;

/// World positions and pans stay within this bound on each axis.
pub const COORD_LIMIT: i64 = 1000000000000;

pub open spec fn in_range(v: int) -> bool {
    -COORD_LIMIT <= v <= COORD_LIMIT
}

/// Range of points derived from positions: a position plus a node's extent.
pub open spec fn in_wide_range(v: int) -> bool {
    -2 * COORD_LIMIT <= v <= 2 * COORD_LIMIT
}

/// A point; world space or screen space depending on where it is used.
#[derive(Clone, Copy, Debug, PartialEq, Eq, Structural)]
pub struct Point {
    pub x: i64,
    pub y: i64,
}

impl Point {
    pub open spec fn wf(&self) -> bool {
        in_range(self.x as int) && in_range(self.y as int)
    }
}

/// Why an operation on the graph's geometry was refused.
#[derive(Clone, Copy, Debug, PartialEq, Eq, Structural)]
pub enum GraphError {
    /// A zoom outside `1..=ZOOM_MAX`, or a coordinate outside the representable range.
    InvalidGeometry,
    /// A node id that names no node of the graph.
    UnknownNode,
    /// A node id that is already taken.
    DuplicateId,
    /// An edge naming a node that does not exist.
    DanglingEdge,
}

/// Pan (in screen units) and zoom (in thousandths) of one graph surface.
#[derive(Clone, Copy, Debug, PartialEq, Eq, Structural)]
pub struct ViewState {
    pub pan: Point,
    pub zoom: u32,
}

impl ViewState {
    pub open spec fn wf(&self) -> bool {
        0 < self.zoom <= ZOOM_MAX && self.pan.wf()
    }

    /// Builds a view; a zero or oversized zoom, or a pan out of range, is refused.
    pub fn new(pan: Point, zoom: u32) -> (r: Result<ViewState, GraphError>)
        ensures
            r is Ok <==> (0 < zoom <= ZOOM_MAX && pan.wf()),
            r is Ok ==> r->Ok_0 == (ViewState { pan, zoom }),
            r is Err ==> r->Err_0 == GraphError::InvalidGeometry,
    {
        if zoom == 0 || zoom > ZOOM_MAX || pan.x < -COORD_LIMIT || pan.x > COORD_LIMIT
            || pan.y < -COORD_LIMIT || pan.y > COORD_LIMIT {
            Err(GraphError::InvalidGeometry)
        } else {
            Ok(ViewState { pan, zoom })
        }
    }
}

/// One axis of `screen_to_world`: `(s - container - pan) / zoom`, rounded down.
pub open spec fn to_world(container: int, pan: int, zoom: int, s: int) -> int {
    (s - container - pan) * ZOOM_ONE / zoom
}

/// One axis of `world_to_screen`: `w * zoom + container + pan`, the product rounded down.
pub open spec fn to_screen(container: int, pan: int, zoom: int, w: int) -> int {
    w * zoom / (ZOOM_ONE as int) + container + pan
}

/// Floor division on `i128`.
fn floor_div(a: i128, b: i128) -> (r: i128)
    requires
        0 < b,
        -0x1000_0000_0000_0000_0000_0000_0000 < a < 0x1000_0000_0000_0000_0000_0000_0000,
    ensures
        r == a / b,
{
    if a >= 0 {
        a / b
    } else {
        let n: i128 = -a - 1;
        let q: i128 = n / b;
        proof {
            lemma_fundamental_div_mod(n as int, b as int);
            lemma_mod_bound(n as int, b as int);
            let qq = -(q as int) - 1;
            let rr = a - qq * b;
            assert(0 <= rr < b) by (nonlinear_arith)
                requires
                    n == b * q + n % b,
                    0 <= n % b < b,
                    n == -a - 1,
                    qq == -q - 1,
                    rr == a - qq * b,
            ;
            vstd::arithmetic::div_mod::lemma_fundamental_div_mod_converse(a as int, b as int, qq, rr);
        }
        -q - 1
    }
}

/// Maps a pointer position to world space; `None` when the result leaves the coordinate range.
pub fn screen_to_world(view: &ViewState, container: Point, p: Point) -> (r: Option<Point>)
    requires
        view.wf(),
    ensures
        r is Some <==> (in_range(
            to_world(container.x as int, view.pan.x as int, view.zoom as int, p.x as int),
        ) && in_range(
            to_world(container.y as int, view.pan.y as int, view.zoom as int, p.y as int),
        )),
        r is Some ==> r->Some_0.x == to_world(
            container.x as int,
            view.pan.x as int,
            view.zoom as int,
            p.x as int,
        ),
        r is Some ==> r->Some_0.y == to_world(
            container.y as int,
            view.pan.y as int,
            view.zoom as int,
            p.y as int,
        ),
{
    let px: i128 = p.x as i128;
    let py: i128 = p.y as i128;
    let cx: i128 = container.x as i128;
    let cy: i128 = container.y as i128;
    let ox: i128 = view.pan.x as i128;
    let oy: i128 = view.pan.y as i128;
    let dx: i128 = (px - cx - ox) * 1000;
    let dy: i128 = (py - cy - oy) * 1000;
    let wx = floor_div(dx, view.zoom as i128);
    let wy = floor_div(dy, view.zoom as i128);
    if wx < -(COORD_LIMIT as i128) || wx > COORD_LIMIT as i128 || wy < -(COORD_LIMIT as i128)
        || wy > COORD_LIMIT as i128 {
        None
    } else {
        Some(Point { x: wx as i64, y: wy as i64 })
    }
}

proof fn lemma_scaled_bound(w: int, z: int)
    requires
        -2 * COORD_LIMIT <= w <= 2 * COORD_LIMIT,
        0 < z <= ZOOM_MAX,
    ensures
        -(COORD_LIMIT as int) * 2000 <= w * z / (ZOOM_ONE as int) <= (COORD_LIMIT as int) * 2000,
{
    let p = w * z;
    assert(-(COORD_LIMIT as int) * (ZOOM_MAX as int) * 2 <= p <= (COORD_LIMIT as int) * (ZOOM_MAX as int) * 2) by (nonlinear_arith)
        requires
            -2 * COORD_LIMIT <= w <= 2 * COORD_LIMIT,
            0 < z <= ZOOM_MAX,
            p == w * z,
    ;
    lemma_fundamental_div_mod(p, ZOOM_ONE as int);
    lemma_mod_bound(p, ZOOM_ONE as int);
}

/// Maps a world point to screen space.
pub fn world_to_screen(view: &ViewState, container: Point, w: Point) -> (r: Point)
    requires
        view.wf(),
        container.wf(),
        in_wide_range(w.x as int),
        in_wide_range(w.y as int),
    ensures
        r.x == to_screen(container.x as int, view.pan.x as int, view.zoom as int, w.x as int),
        r.y == to_screen(container.y as int, view.pan.y as int, view.zoom as int, w.y as int),
{
    proof {
        lemma_scaled_bound(w.x as int, view.zoom as int);
        lemma_scaled_bound(w.y as int, view.zoom as int);
    }
    let sx = floor_div(w.x as i128 * view.zoom as i128, ZOOM_ONE as i128);
    let sy = floor_div(w.y as i128 * view.zoom as i128, ZOOM_ONE as i128);
    let x: i64 = sx as i64;
    let y: i64 = sy as i64;
    Point { x: x + container.x + view.pan.x, y: y + container.y + view.pan.y }
}

/// Scales a world length to screen length, rounded down.
pub fn scale_length(view: &ViewState, len: i64) -> (r: i64)
    requires
        view.wf(),
        0 <= len <= COORD_LIMIT,
    ensures
        r == (len as int) * (view.zoom as int) / (ZOOM_ONE as int),
{
    proof {
        lemma_scaled_bound(len as int, view.zoom as int);
    }
    floor_div(len as i128 * view.zoom as i128, ZOOM_ONE as i128) as i64
}

/// Mapping a screen point to world space and back lands on the point itself or at most
/// `zoom + 1` units (in thousandths: `zoom + ZOOM_ONE`) to its upper left; at zoom 1 exactly on it.
pub proof fn lemma_round_trip(container: int, pan: int, zoom: int, s: int)
    requires
        0 < zoom,
    ensures
        0 <= ZOOM_ONE * (s - to_screen(container, pan, zoom, to_world(container, pan, zoom, s)))
            < zoom + ZOOM_ONE,
        zoom == ZOOM_ONE ==> to_screen(container, pan, zoom, to_world(container, pan, zoom, s))
            == s,
{
    let d = s - container - pan;
    let x = d * ZOOM_ONE;
    let q = to_world(container, pan, zoom, s);
    let y = q * zoom;
    lemma_fundamental_div_mod(x, zoom);
    lemma_mod_bound(x, zoom);
    lemma_fundamental_div_mod(y, ZOOM_ONE as int);
    lemma_mod_bound(y, ZOOM_ONE as int);
    assert(zoom * q == q * zoom) by (nonlinear_arith);
    if zoom == ZOOM_ONE {
        assert(q == d) by (nonlinear_arith)
            requires
                x == d * ZOOM_ONE,
                x == zoom * q + x % zoom,
                0 <= x % zoom < zoom,
                zoom == ZOOM_ONE,
        ;
    }
}

/// While a node sits at `to_world(pointer) - grab`, its screen position relative to the
/// pointer is `-grab * zoom`, up to `zoom + 1` units: the grab point follows the pointer
/// under every pan and zoom.
pub proof fn lemma_grab_offset_tracks_pointer(
    container: int,
    pan: int,
    zoom: int,
    pointer: int,
    grab: int,
    pos: int,
)
    requires
        0 < zoom,
        pos == to_world(container, pan, zoom, pointer) - grab,
    ensures
        -(grab * zoom) - zoom - ZOOM_ONE < ZOOM_ONE * (to_screen(container, pan, zoom, pos)
            - pointer) <= -(grab * zoom),
{
    let d = pointer - container - pan;
    let x = d * ZOOM_ONE;
    let q = to_world(container, pan, zoom, pointer);
    let y = pos * zoom;
    lemma_fundamental_div_mod(x, zoom);
    lemma_mod_bound(x, zoom);
    lemma_fundamental_div_mod(y, ZOOM_ONE as int);
    lemma_mod_bound(y, ZOOM_ONE as int);
    assert(y == q * zoom - grab * zoom) by (nonlinear_arith)
        requires
            y == pos * zoom,
            pos == q - grab,
    ;
    assert(zoom * q == q * zoom) by (nonlinear_arith);
}

/// With the zoom held, a drag keeps the node's screen offset from the pointer at its value
/// from the moment of the grab, up to `zoom + 1` units, whatever the pan and container do.
pub proof fn lemma_grab_offset_constant_at_fixed_zoom(
    c0: int,
    pan0: int,
    p0: int,
    pos0: int,
    c1: int,
    pan1: int,
    p1: int,
    zoom: int,
)
    requires
        0 < zoom,
    ensures
        ({
            let grab = to_world(c0, pan0, zoom, p0) - pos0;
            let pos1 = to_world(c1, pan1, zoom, p1) - grab;
            let before = to_screen(c0, pan0, zoom, pos0) - p0;
            let after = to_screen(c1, pan1, zoom, pos1) - p1;
            -(zoom + ZOOM_ONE) < ZOOM_ONE * (after - before) < zoom + ZOOM_ONE
        }),
{
    let grab = to_world(c0, pan0, zoom, p0) - pos0;
    let pos1 = to_world(c1, pan1, zoom, p1) - grab;
    lemma_grab_offset_tracks_pointer(c0, pan0, zoom, p0, grab, pos0);
    lemma_grab_offset_tracks_pointer(c1, pan1, zoom, p1, grab, pos1);
}

} // verus!
