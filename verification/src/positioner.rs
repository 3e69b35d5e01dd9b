//! Placing the window under the cursor.
//!
//! The window is moved so that its centre lies on the pointer, in the logical
//! coordinates of the monitor under the pointer. The windowing system applies
//! a move in its own time and may clamp or ignore it, so a second pass measures
//! where the window ended up and reports what is left between its centre and
//! the pointer. The pointer is read once and used for both passes.
//!
//! All of it is exact. The pointer is in sub-pixel steps, window positions and
//! sizes are in whole pixels, and logical values are whole numbers of steps
//! that carry the number of steps in a point with them, as [`crate::units`]
//! describes.

use crate::units::{logical_steps, steps_per_point, Scale, LOGICAL_LIMIT, SUBPIXEL};
use vstd::prelude::*;

verus! {

/// Side of the window, in logical points, that stands in for an inner size
/// that cannot be read.
pub const HUD_LOGICAL: u32 = 700;

/// Milliseconds between the move and the measurement that corrects it.
pub const CORRECTION_DELAY_MS: u64 = 30;

/// The event that carries a [`HudOffset`] to the window's content.
pub const OFFSET_EVENT: &'static str = "hud-offset";

/// The pointer on the desktop, origin top-left, in sub-pixel steps:
/// [`SUBPIXEL`] of them to a physical pixel.
#[derive(Clone, Copy, Debug, PartialEq, Eq, Structural)]
pub struct CursorPoint {
    pub x: i64,
    pub y: i64,
}

/// A position on the desktop in physical pixels, origin top-left.
#[derive(Clone, Copy, Debug, PartialEq, Eq, Structural)]
pub struct PhysicalPoint {
    pub x: i32,
    pub y: i32,
}

/// A size in physical pixels.
#[derive(Clone, Copy, Debug, PartialEq, Eq, Structural)]
pub struct PhysicalSize {
    pub width: u32,
    pub height: u32,
}

/// A logical position: `x / steps` and `y / steps` points.
#[derive(Clone, Copy, Debug, PartialEq, Eq, Structural)]
pub struct LogicalPoint {
    pub x: i128,
    pub y: i128,
    pub steps: i128,
}

/// A logical size: `width / steps` by `height / steps` points.
#[derive(Clone, Copy, Debug, PartialEq, Eq, Structural)]
pub struct LogicalSize {
    pub width: i128,
    pub height: i128,
    pub steps: i128,
}

/// What is left between the pointer and the centre of the window after a
/// move, pointer minus centre: `dx / steps` and `dy / steps` logical points.
#[derive(Clone, Copy, Debug, PartialEq, Eq, Structural)]
pub struct HudOffset {
    pub dx: i128,
    pub dy: i128,
    pub steps: i128,
}

/// The display under the pointer.
#[derive(Clone, Copy, Debug, PartialEq, Eq, Structural)]
pub struct MonitorInfo {
    pub position: PhysicalPoint,
    pub size: PhysicalSize,
    pub scale: Scale,
}

/// What the first pass decides, and what the second pass needs of it: the
/// pointer as it was read, the scale factor it was converted at, the logical
/// size the window was taken to have, and the top-left corner to ask for.
#[derive(Clone, Copy, Debug, PartialEq, Eq, Structural)]
pub struct Placement {
    pub cursor: CursorPoint,
    pub scale: Scale,
    pub inner: LogicalSize,
    pub top_left: LogicalPoint,
}

/// The scale factor that a monitor lookup yields, numerator then denominator:
/// the monitor's own, or 1.0 where no monitor was found.
pub open spec fn resolved_scale(found: Option<MonitorInfo>) -> (int, int) {
    match found {
        Some(monitor) => (monitor.scale.numerator(), monitor.scale.denominator()),
        None => (1, 1),
    }
}

/// The logical inner size of the window in steps, width then height: what was
/// read, divided by the scale factor, or the stand-in square where nothing was
/// read. Both are even numbers of steps.
pub open spec fn inner_extent(
    inner_size: Option<PhysicalSize>,
    numerator: int,
    denominator: int,
) -> (int, int) {
    match inner_size {
        Some(size) => (
            logical_steps(size.width * SUBPIXEL, denominator),
            logical_steps(size.height * SUBPIXEL, denominator),
        ),
        None => (
            HUD_LOGICAL * steps_per_point(numerator),
            HUD_LOGICAL * steps_per_point(numerator),
        ),
    }
}

/// Along one axis, in steps: the origin of a window of logical extent
/// `extent`, an even number of steps, whose centre lies on the pointer at
/// `cursor` sub-pixel steps.
pub open spec fn ideal_origin(cursor: int, denominator: int, extent: int) -> int {
    logical_steps(cursor, denominator) - extent / 2
}

/// The top-left corner, x then y, that the first pass asks for, in steps of
/// which [`steps_per_point`] of the resolved numerator make a point.
pub open spec fn planned_corner(
    cursor: CursorPoint,
    monitor: Option<MonitorInfo>,
    inner_size: Option<PhysicalSize>,
) -> (int, int) {
    let scale = resolved_scale(monitor);
    let inner = inner_extent(inner_size, scale.0, scale.1);
    (ideal_origin(cursor.x as int, scale.1, inner.0), ideal_origin(cursor.y as int, scale.1, inner.1))
}

/// Along one axis, in steps: pointer minus centre, for a window measured at
/// `origin` whole pixels with an extent of `extent` whole pixels, all divided
/// by one scale factor.
pub open spec fn residual(cursor: int, denominator: int, origin: int, extent: int) -> int {
    logical_steps(cursor, denominator) - (logical_steps(origin * SUBPIXEL, denominator)
        + logical_steps(extent * SUBPIXEL, denominator) / 2)
}

/// Pointer minus centre in steps, x then y, for a window measured at
/// `position` with inner size `inner_size`, all divided by one scale factor.
pub open spec fn measured_offset(
    cursor: CursorPoint,
    denominator: int,
    position: PhysicalPoint,
    inner_size: PhysicalSize,
) -> (int, int) {
    (
        residual(cursor.x as int, denominator, position.x as int, inner_size.width as int),
        residual(cursor.y as int, denominator, position.y as int, inner_size.height as int),
    )
}

/// The scale factor of the second pass, numerator then denominator: the one
/// read now, or, where none could be read, that of the first pass.
pub open spec fn scale_in_effect(plan: Placement, scale_now: Option<Scale>) -> (int, int) {
    match scale_now {
        Some(scale) => (scale.numerator(), scale.denominator()),
        None => (plan.scale.numerator(), plan.scale.denominator()),
    }
}

impl MonitorInfo {
    /// The monitor that a lookup found, or, where it found none, the stand-in
    /// at the origin, of no size, with scale factor 1.0.
    pub fn resolve(found: Option<MonitorInfo>) -> (monitor: MonitorInfo)
        ensures
            found matches Some(m) ==> monitor == m,
            found is None ==> monitor.position == (PhysicalPoint { x: 0, y: 0 }),
            found is None ==> monitor.size == (PhysicalSize { width: 0, height: 0 }),
            (monitor.scale.numerator(), monitor.scale.denominator()) == resolved_scale(found),
    {
        match found {
            Some(monitor) => monitor,
            None => MonitorInfo {
                position: PhysicalPoint { x: 0, y: 0 },
                size: PhysicalSize { width: 0, height: 0 },
                scale: Scale::identity(),
            },
        }
    }
}

/// The pointer, divided by the scale factor. No coordinate of the result is
/// farther from zero than [`LOGICAL_LIMIT`].
pub fn logical_cursor(cursor: CursorPoint, scale: &Scale) -> (logical: LogicalPoint)
    ensures
        logical.x == logical_steps(cursor.x as int, scale.denominator()),
        logical.y == logical_steps(cursor.y as int, scale.denominator()),
        logical.steps == steps_per_point(scale.numerator()),
        logical.steps > 0,
        -LOGICAL_LIMIT <= logical.x <= LOGICAL_LIMIT,
        -LOGICAL_LIMIT <= logical.y <= LOGICAL_LIMIT,
{
    LogicalPoint {
        x: scale.to_logical(cursor.x),
        y: scale.to_logical(cursor.y),
        steps: scale.steps_per_point(),
    }
}

/// A physical position, divided by the scale factor. No coordinate of the
/// result is farther from zero than [`LOGICAL_LIMIT`].
pub fn logical_point(point: PhysicalPoint, scale: &Scale) -> (logical: LogicalPoint)
    ensures
        logical.x == logical_steps(point.x * SUBPIXEL, scale.denominator()),
        logical.y == logical_steps(point.y * SUBPIXEL, scale.denominator()),
        logical.steps == steps_per_point(scale.numerator()),
        logical.steps > 0,
        -LOGICAL_LIMIT <= logical.x <= LOGICAL_LIMIT,
        -LOGICAL_LIMIT <= logical.y <= LOGICAL_LIMIT,
{
    LogicalPoint {
        x: scale.to_logical((point.x as i64) * SUBPIXEL),
        y: scale.to_logical((point.y as i64) * SUBPIXEL),
        steps: scale.steps_per_point(),
    }
}

/// A physical size, divided by the scale factor. Both extents of the result
/// are even, and lie between zero and twice [`LOGICAL_LIMIT`].
pub fn logical_size(size: PhysicalSize, scale: &Scale) -> (logical: LogicalSize)
    ensures
        (logical.width as int, logical.height as int) == inner_extent(
            Some(size),
            scale.numerator(),
            scale.denominator(),
        ),
        logical.steps == steps_per_point(scale.numerator()),
        logical.steps > 0,
        0 <= logical.width <= 2 * LOGICAL_LIMIT,
        0 <= logical.height <= 2 * LOGICAL_LIMIT,
        logical.width % 2 == 0,
        logical.height % 2 == 0,
{
    LogicalSize {
        width: scale.extent_to_logical(size.width),
        height: scale.extent_to_logical(size.height),
        steps: scale.steps_per_point(),
    }
}

/// The logical inner size of the window at `scale`: what was read, divided by
/// the scale factor, or a square of [`HUD_LOGICAL`] points where nothing could
/// be read. Both extents of the result are even, and lie between zero and
/// twice [`LOGICAL_LIMIT`].
pub fn inner_logical_size(inner_size: Option<PhysicalSize>, scale: &Scale) -> (logical: LogicalSize)
    ensures
        (logical.width as int, logical.height as int) == inner_extent(
            inner_size,
            scale.numerator(),
            scale.denominator(),
        ),
        logical.steps == steps_per_point(scale.numerator()),
        logical.steps > 0,
        0 <= logical.width <= 2 * LOGICAL_LIMIT,
        0 <= logical.height <= 2 * LOGICAL_LIMIT,
        logical.width % 2 == 0,
        logical.height % 2 == 0,
{
    match inner_size {
        Some(size) => logical_size(size, scale),
        None => {
            let side = scale.points_to_logical(HUD_LOGICAL);
            LogicalSize { width: side, height: side, steps: scale.steps_per_point() }
        },
    }
}

/// The first pass. Given the pointer, the monitor under it and the inner size
/// of the window, each as far as it could be read, decides where to move the
/// window: nowhere if the pointer could not be read; else to the corner that
/// centres the window on the pointer, at the scale factor of the monitor (1.0
/// if none was found), taking the window to be 700 points square if its size
/// could not be read. Neither the origin nor the size of the monitor enters.
pub fn position_window_at_cursor(
    cursor: Option<CursorPoint>,
    monitor: Option<MonitorInfo>,
    inner_size: Option<PhysicalSize>,
) -> (plan: Option<Placement>)
    ensures
        plan is None <==> cursor is None,
        plan matches Some(p) ==> {
            &&& Some(p.cursor) == cursor
            &&& (p.scale.numerator(), p.scale.denominator()) == resolved_scale(monitor)
            &&& (p.inner.width as int, p.inner.height as int) == inner_extent(
                inner_size,
                p.scale.numerator(),
                p.scale.denominator(),
            )
            &&& (p.top_left.x as int, p.top_left.y as int) == planned_corner(
                p.cursor,
                monitor,
                inner_size,
            )
            &&& p.inner.steps == steps_per_point(p.scale.numerator())
            &&& p.top_left.steps == steps_per_point(p.scale.numerator())
            &&& p.top_left.steps > 0
        },
{
    match cursor {
        None => None,
        Some(point) => {
            let scale = MonitorInfo::resolve(monitor).scale;
            let pointer = logical_cursor(point, &scale);
            let inner = inner_logical_size(inner_size, &scale);
            let top_left = LogicalPoint {
                x: pointer.x - inner.width / 2,
                y: pointer.y - inner.height / 2,
                steps: pointer.steps,
            };
            Some(Placement { cursor: point, scale, inner, top_left })
        },
    }
}

/// The second pass. Given the position and inner size that the window has
/// after the move, and the scale factor it has now, returns what is left
/// between the pointer of the first pass and the centre of the window, all
/// divided by the scale factor in effect now. Nothing is returned where the
/// position or the size could not be read. The pointer is the one in `plan`:
/// it is not read again.
pub fn correction_offset(
    plan: &Placement,
    scale_now: Option<Scale>,
    position: Option<PhysicalPoint>,
    inner_size: Option<PhysicalSize>,
) -> (offset: Option<HudOffset>)
    ensures
        offset is Some <==> position is Some && inner_size is Some,
        offset matches Some(o) ==> {
            &&& (o.dx as int, o.dy as int) == measured_offset(
                plan.cursor,
                scale_in_effect(*plan, scale_now).1,
                position->0,
                inner_size->0,
            )
            &&& o.steps == steps_per_point(scale_in_effect(*plan, scale_now).0)
            &&& o.steps > 0
        },
{
    let scale = match scale_now {
        Some(s) => s,
        None => plan.scale,
    };
    match (position, inner_size) {
        (Some(origin), Some(size)) => {
            let corner = logical_point(origin, &scale);
            let inner = logical_size(size, &scale);
            let pointer = logical_cursor(plan.cursor, &scale);
            let center_x = corner.x + inner.width / 2;
            let center_y = corner.y + inner.height / 2;
            Some(
                HudOffset {
                    dx: pointer.x - center_x,
                    dy: pointer.y - center_y,
                    steps: pointer.steps,
                },
            )
        },
        _ => None,
    }
}

proof fn lemma_twice(factor: int, value: int)
    ensures
        2 * factor * value == 2 * (factor * value),
        factor * (2 * value) == 2 * (factor * value),
{
    assert(2 * factor * value == 2 * (factor * value)) by (nonlinear_arith);
    assert(factor * (2 * value) == 2 * (factor * value)) by (nonlinear_arith);
}

proof fn lemma_distribute(factor: int, first: int, second: int)
    ensures
        factor * (first - second) == factor * first - factor * second,
{
    assert(factor * (first - second) == factor * first - factor * second) by (nonlinear_arith);
}

/// Halving the logical inner size loses nothing: both extents are even
/// numbers of steps.
pub proof fn lemma_inner_extent_is_even(
    inner_size: Option<PhysicalSize>,
    numerator: int,
    denominator: int,
)
    ensures
        2 * (inner_extent(inner_size, numerator, denominator).0 / 2) == inner_extent(
            inner_size,
            numerator,
            denominator,
        ).0,
        2 * (inner_extent(inner_size, numerator, denominator).1 / 2) == inner_extent(
            inner_size,
            numerator,
            denominator,
        ).1,
{
    match inner_size {
        Some(size) => {
            lemma_twice(denominator, size.width * SUBPIXEL);
            lemma_twice(denominator, size.height * SUBPIXEL);
        },
        None => {
            lemma_twice(HUD_LOGICAL as int, SUBPIXEL * numerator);
        },
    }
}

/// The corner asked for is the pointer less half the inner size of the
/// window, over the scale factor, exactly. With the pointer at `P` pixels, a
/// window `w` pixels wide and the scale factor `n / d`, it is
/// `(P - w / 2) / (n / d)` points; in steps of `1 / (2 * SUBPIXEL * n)` points,
/// with `P * SUBPIXEL` for the pointer, that is `d * (2 * P * SUBPIXEL - w *
/// SUBPIXEL)`. Where the size could not be read, it is `P / (n / d) - 350`.
pub proof fn lemma_corner_is_quotient(
    cursor: CursorPoint,
    monitor: Option<MonitorInfo>,
    inner_size: Option<PhysicalSize>,
)
    ensures
        inner_size matches Some(size) ==> planned_corner(cursor, monitor, inner_size) == (
            resolved_scale(monitor).1 * (2 * cursor.x - size.width * SUBPIXEL),
            resolved_scale(monitor).1 * (2 * cursor.y - size.height * SUBPIXEL),
        ),
        inner_size is None ==> planned_corner(cursor, monitor, inner_size) == (
            2 * resolved_scale(monitor).1 * cursor.x - 350 * steps_per_point(
                resolved_scale(monitor).0,
            ),
            2 * resolved_scale(monitor).1 * cursor.y - 350 * steps_per_point(
                resolved_scale(monitor).0,
            ),
        ),
{
    let numerator = resolved_scale(monitor).0;
    let denominator = resolved_scale(monitor).1;
    match inner_size {
        Some(size) => {
            lemma_twice(denominator, size.width * SUBPIXEL);
            lemma_twice(denominator, size.height * SUBPIXEL);
            lemma_twice(denominator, cursor.x as int);
            lemma_twice(denominator, cursor.y as int);
            lemma_distribute(denominator, 2 * cursor.x, size.width * SUBPIXEL);
            lemma_distribute(denominator, 2 * cursor.y, size.height * SUBPIXEL);
        },
        None => {
            lemma_twice(HUD_LOGICAL as int, SUBPIXEL * numerator);
        },
    }
}

/// The corner asked for depends on the monitor through its scale factor
/// alone: two monitors of one scale factor, wherever they lie and whatever
/// their size, give the same corner.
pub proof fn lemma_corner_ignores_monitor_origin(
    cursor: CursorPoint,
    here: MonitorInfo,
    there: MonitorInfo,
    inner_size: Option<PhysicalSize>,
)
    requires
        here.scale.numerator() == there.scale.numerator(),
        here.scale.denominator() == there.scale.denominator(),
    ensures
        planned_corner(cursor, Some(here), inner_size) == planned_corner(
            cursor,
            Some(there),
            inner_size,
        ),
{
}

/// Where the window ends up at the corner that was asked for, with the inner
/// size that the request was computed for, and the scale factor has not
/// changed, nothing is left to correct.
pub proof fn lemma_exact_move_leaves_no_offset(
    cursor: CursorPoint,
    monitor: Option<MonitorInfo>,
    inner_size: PhysicalSize,
    position: PhysicalPoint,
)
    requires
        (
            logical_steps(position.x * SUBPIXEL, resolved_scale(monitor).1),
            logical_steps(position.y * SUBPIXEL, resolved_scale(monitor).1),
        ) == planned_corner(cursor, monitor, Some(inner_size)),
    ensures
        measured_offset(cursor, resolved_scale(monitor).1, position, inner_size) == (0int, 0int),
{
}

} // verus!
