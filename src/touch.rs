//! Touch input: a low-pass filter over the touchscreen's raw samples, and the
//! press/move/release classification of those samples.

use vstd::math::abs;
use vstd::prelude::*;

verus! {

/// A position on the screen, in pixels.
#[derive(Debug, Clone, Copy, PartialEq, Eq, Structural)]
pub struct TouchPoint {
    pub x: i32,
    pub y: i32,
}

/// The phase that the touchscreen reports with a sample.
#[derive(Debug, Clone, Copy, PartialEq, Eq, Structural)]
pub enum TouchPhase {
    /// The screen was just touched.
    Pressed,
    /// The screen is still being touched.
    Held,
    /// The screen is not touched.
    Released,
}

/// The phase of a touch event handed to the interface.
#[derive(Debug, Clone, Copy, PartialEq, Eq, Structural)]
pub enum EventPhase {
    Started,
    Moved,
    Ended,
}

/// One filtered touch event.
#[derive(Debug, Clone, Copy, PartialEq, Eq, Structural)]
pub struct TouchEvent {
    pub location: TouchPoint,
    pub phase: EventPhase,
}

/// `v / 4`, rounded toward zero.
pub open spec fn quarter_toward_zero(v: int) -> int {
    if v >= 0 {
        v / 4
    } else {
        -((-v) / 4)
    }
}

/// One step of the low-pass filter on one axis: the filtered value moves a
/// quarter of the way from `prev` to `raw`, so its distance to `raw` shrinks
/// to three quarters, rounded toward zero.
pub open spec fn blend_axis(prev: int, raw: int) -> int {
    raw + quarter_toward_zero(3 * (prev - raw))
}

/// One filter step on both axes.
pub open spec fn blend(prev: TouchPoint, raw: TouchPoint) -> TouchPoint {
    TouchPoint {
        x: blend_axis(prev.x as int, raw.x as int) as i32,
        y: blend_axis(prev.y as int, raw.y as int) as i32,
    }
}

/// The blended value lies between `prev` and `raw`, and is strictly closer
/// to `raw` than `prev` unless the two are equal.
proof fn lemma_blend_axis(prev: int, raw: int)
    ensures
        prev >= raw ==> raw <= blend_axis(prev, raw) <= prev,
        prev <= raw ==> prev <= blend_axis(prev, raw) <= raw,
        prev != raw ==> abs(blend_axis(prev, raw) - raw) < abs(prev - raw),
        prev == raw ==> blend_axis(prev, raw) == raw,
{
    let d = prev - raw;
    if d >= 0 {
        assert(0 <= (3 * d) / 4 <= d) by (nonlinear_arith)
            requires d >= 0;
        if d > 0 {
            assert((3 * d) / 4 < d) by (nonlinear_arith)
                requires d > 0;
        }
    } else {
        assert(0 <= (3 * -d) / 4 <= -d) by (nonlinear_arith)
            requires d < 0;
        assert((3 * -d) / 4 < -d) by (nonlinear_arith)
            requires d < 0;
    }
}

/// Filters one axis.
fn blend_axis_exec(prev: i32, raw: i32) -> (r: i32)
    ensures
        r == blend_axis(prev as int, raw as int),
{
    proof {
        lemma_blend_axis(prev as int, raw as int);
    }
    let m: i64 = 3 * (prev as i64 - raw as i64);
    let q: i64 = if m >= 0 { m / 4 } else { -((-m) / 4) };
    (raw as i64 + q) as i32
}

/// The touch filter: the last filtered position of the current touch, if
/// there is one, and whether the screen is being touched.
#[derive(Debug, Clone, Copy, PartialEq, Eq, Structural)]
pub struct TouchFilter {
    pub filtered: Option<TouchPoint>,
    pub touching: bool,
}

/// How the filter handles one raw sample: its next state and the event it
/// emits. A press resets the filter to the raw position; a held sample is
/// blended with the previous filtered position; a release passes the raw
/// position through, and a release while nothing is touched emits nothing.
pub open spec fn filter_step(f: TouchFilter, raw: TouchPoint, phase: TouchPhase) -> (TouchFilter, Option<TouchEvent>) {
    match phase {
        TouchPhase::Pressed => (
            TouchFilter { filtered: Some(raw), touching: true },
            Some(TouchEvent { location: raw, phase: EventPhase::Started }),
        ),
        TouchPhase::Held => {
            let p = match f.filtered {
                Some(prev) => blend(prev, raw),
                None => raw,
            };
            (TouchFilter { filtered: Some(p), touching: true }, Some(TouchEvent { location: p, phase: EventPhase::Moved }))
        },
        TouchPhase::Released => (
            TouchFilter { filtered: None, touching: false },
            if f.touching {
                Some(TouchEvent { location: raw, phase: EventPhase::Ended })
            } else {
                None
            },
        ),
    }
}

impl TouchFilter {
    /// A filter with no touch in progress.
    pub fn new() -> (f: TouchFilter)
        ensures
            f.filtered is None,
            !f.touching,
    {
        TouchFilter { filtered: None, touching: false }
    }

    /// Filters one raw sample, as `filter_step` describes.
    pub fn sample(&mut self, raw: TouchPoint, phase: TouchPhase) -> (e: Option<TouchEvent>)
        ensures
            (*final(self), e) == filter_step(*old(self), raw, phase),
    {
        match phase {
            TouchPhase::Pressed => {
                self.filtered = Some(raw);
                self.touching = true;
                Some(TouchEvent { location: raw, phase: EventPhase::Started })
            },
            TouchPhase::Held => {
                let p = match self.filtered {
                    Some(prev) => TouchPoint {
                        x: blend_axis_exec(prev.x, raw.x),
                        y: blend_axis_exec(prev.y, raw.y),
                    },
                    None => raw,
                };
                self.filtered = Some(p);
                self.touching = true;
                Some(TouchEvent { location: p, phase: EventPhase::Moved })
            },
            TouchPhase::Released => {
                let was_touching = self.touching;
                self.filtered = None;
                self.touching = false;
                if was_touching {
                    Some(TouchEvent { location: raw, phase: EventPhase::Ended })
                } else {
                    None
                }
            },
        }
    }
}

/// The filter after `n` held samples at `raw`.
pub open spec fn held_n(f: TouchFilter, raw: TouchPoint, n: nat) -> TouchFilter
    decreases n,
{
    if n == 0 {
        f
    } else {
        filter_step(held_n(f, raw, (n - 1) as nat), raw, TouchPhase::Held).0
    }
}

/// The larger of the two axis distances between `p` and `q`.
pub open spec fn distance(p: TouchPoint, q: TouchPoint) -> nat {
    let dx = abs(p.x - q.x) as nat;
    let dy = abs(p.y - q.y) as nat;
    if dx >= dy { dx } else { dy }
}

/// One held step never moves the filtered position away from `raw` on
/// either axis, and strictly nears it on every axis where they differ.
proof fn lemma_held_step(prev: TouchPoint, raw: TouchPoint)
    ensures
        abs(blend(prev, raw).x - raw.x) <= abs(prev.x - raw.x),
        abs(blend(prev, raw).y - raw.y) <= abs(prev.y - raw.y),
        prev.x != raw.x ==> abs(blend(prev, raw).x - raw.x) < abs(prev.x - raw.x),
        prev.y != raw.y ==> abs(blend(prev, raw).y - raw.y) < abs(prev.y - raw.y),
{
    lemma_blend_axis(prev.x as int, raw.x as int);
    lemma_blend_axis(prev.y as int, raw.y as int);
}

/// Held samples at one raw position bring the filtered position to it: each
/// sample keeps it as close or closer on both axes, and after as many
/// samples as the starting distance it equals the raw position. A press
/// resets the filter to the raw position at once, whatever came before.
pub proof fn lemma_held_converges(f: TouchFilter, raw: TouchPoint, n: nat)
    requires
        f.filtered is Some,
    ensures
        held_n(f, raw, n).filtered is Some,
        abs(held_n(f, raw, n + 1).filtered->0.x - raw.x) <= abs(held_n(f, raw, n).filtered->0.x - raw.x),
        abs(held_n(f, raw, n + 1).filtered->0.y - raw.y) <= abs(held_n(f, raw, n).filtered->0.y - raw.y),
        filter_step(held_n(f, raw, n), raw, TouchPhase::Held).1
            == Some(TouchEvent { location: held_n(f, raw, n + 1).filtered->0, phase: EventPhase::Moved }),
        n >= distance(f.filtered->0, raw) ==> held_n(f, raw, n).filtered == Some(raw),
        filter_step(f, raw, TouchPhase::Pressed).0.filtered == Some(raw),
        filter_step(f, raw, TouchPhase::Pressed).1 == Some(TouchEvent { location: raw, phase: EventPhase::Started }),
    decreases n,
{
    let start = f.filtered->0;
    if n > 0 {
        lemma_held_converges(f, raw, (n - 1) as nat);
        let p = held_n(f, raw, (n - 1) as nat).filtered->0;
        lemma_held_step(p, raw);
    }
    let q = held_n(f, raw, n).filtered->0;
    lemma_held_step(q, raw);
    lemma_held_distance(f, raw, n);
    if n >= distance(start, raw) {
        assert(q.x == raw.x && q.y == raw.y);
    }
}

/// After `n` held samples each axis is at `raw` or at least `n` pixels closer
/// to it than at the start.
proof fn lemma_held_distance(f: TouchFilter, raw: TouchPoint, n: nat)
    requires
        f.filtered is Some,
    ensures
        held_n(f, raw, n).filtered is Some,
        held_n(f, raw, n).filtered->0.x == raw.x
            || abs(held_n(f, raw, n).filtered->0.x - raw.x) + n <= abs(f.filtered->0.x - raw.x),
        held_n(f, raw, n).filtered->0.y == raw.y
            || abs(held_n(f, raw, n).filtered->0.y - raw.y) + n <= abs(f.filtered->0.y - raw.y),
    decreases n,
{
    if n > 0 {
        lemma_held_distance(f, raw, (n - 1) as nat);
        let p = held_n(f, raw, (n - 1) as nat).filtered->0;
        lemma_held_step(p, raw);
    }
}

/// A pointer event for a windowing front end.
#[derive(Debug, Clone, Copy, PartialEq, Eq, Structural)]
pub enum PointerEvent {
    Pressed(TouchPoint),
    Moved(TouchPoint),
    Released(TouchPoint),
}

/// Turns a raw touch sample into a pointer event. `display_pressed` records
/// whether a press was already reported, so that a repeated press sample is
/// reported as a move.
pub fn convert_touch_event(point: TouchPoint, phase: TouchPhase, display_pressed: &mut bool) -> (e: PointerEvent)
    ensures
        e == match phase {
            TouchPhase::Released => PointerEvent::Released(point),
            TouchPhase::Pressed => if *old(display_pressed) {
                PointerEvent::Moved(point)
            } else {
                PointerEvent::Pressed(point)
            },
            TouchPhase::Held => PointerEvent::Moved(point),
        },
        *final(display_pressed) == match phase {
            TouchPhase::Released => false,
            TouchPhase::Pressed => true,
            TouchPhase::Held => *old(display_pressed),
        },
{
    match phase {
        TouchPhase::Released => {
            *display_pressed = false;
            PointerEvent::Released(point)
        },
        TouchPhase::Pressed => {
            let was_pressed = *display_pressed;
            *display_pressed = true;
            if was_pressed {
                PointerEvent::Moved(point)
            } else {
                PointerEvent::Pressed(point)
            }
        },
        TouchPhase::Held => PointerEvent::Moved(point),
    }
}

} // verus!
