//! The placement engine: given one window, its monitor, the configured
//! displacement bounds and the taskbar, where does the window go next?

use rand::Rng;
use vstd::prelude::*;

use crate::geometry::{MonitorRect, WindowSnapshot};

verus! {

/// Largest distance, per axis, that one pass may ask a window to travel.
#[derive(Clone, Copy, Debug, PartialEq, Eq, Structural)]
pub struct DisplacementBounds {
    pub max_x: i32,
    pub max_y: i32,
}

impl DisplacementBounds {
    /// Both magnitudes are non-negative.
    pub open spec fn wf(self) -> bool {
        self.max_x >= 0 && self.max_y >= 0
    }

    pub fn new(max_x: i32, max_y: i32) -> (b: Self)
        ensures
            b.max_x == max_x,
            b.max_y == max_y,
    {
        DisplacementBounds { max_x, max_y }
    }
}

/// State of the taskbar on the window's monitor.
#[derive(Clone, Copy, Debug, PartialEq, Eq, Structural)]
pub struct Taskbar {
    /// Retracts until hovered.
    pub auto_hidden: bool,
    pub height: i32,
}

impl Taskbar {
    pub fn new(auto_hidden: bool, height: i32) -> (t: Self)
        ensures
            t.auto_hidden == auto_hidden,
            t.height == height,
    {
        Taskbar { auto_hidden, height }
    }
}

pub open spec fn spec_min(a: int, b: int) -> int {
    if a <= b {
        a
    } else {
        b
    }
}

pub open spec fn spec_max(a: int, b: int) -> int {
    if a >= b {
        a
    } else {
        b
    }
}

/// `v` forced into `[lo, hi]`; the lower end wins when the interval is empty.
pub open spec fn clamped(v: int, lo: int, hi: int) -> int {
    spec_max(lo, spec_min(v, hi))
}

/// A window is eligible when it is visible, neither maximized, snapped nor
/// excluded, and no larger than its monitor in either dimension.
pub open spec fn eligible(win: WindowSnapshot) -> bool {
    &&& win.visible
    &&& !win.maximized
    &&& !win.snapped
    &&& !win.excluded
    &&& win.placement.spec_width() <= win.monitor.spec_width()
    &&& win.placement.spec_height() <= win.monitor.spec_height()
}

/// Room left on the monitor beside the window, horizontally.
pub open spec fn free_x(win: WindowSnapshot) -> int {
    win.monitor.spec_width() - win.placement.spec_width()
}

/// Room left on the monitor beside the window, vertically.
pub open spec fn free_y(win: WindowSnapshot) -> int {
    win.monitor.spec_height() - win.placement.spec_height()
}

/// The smaller of the configured bound and the free room, never negative.
pub open spec fn effective_bound(bound: int, free: int) -> int {
    spec_max(0, spec_min(bound, free))
}

pub open spec fn max_dx(win: WindowSnapshot, bounds: DisplacementBounds) -> int {
    effective_bound(bounds.max_x as int, free_x(win))
}

pub open spec fn max_dy(win: WindowSnapshot, bounds: DisplacementBounds) -> int {
    effective_bound(bounds.max_y as int, free_y(win))
}

/// New left edge for a horizontal offset `dx`: the candidate `left + dx`,
/// kept between the monitor's left edge and the last position at which the
/// window's right edge is still on the monitor.
pub open spec fn target_x(win: WindowSnapshot, dx: int) -> int {
    clamped(
        win.placement.left + dx,
        win.monitor.left as int,
        win.monitor.right - win.placement.spec_width(),
    )
}

/// New top edge before the taskbar is considered.
pub open spec fn unadjusted_y(win: WindowSnapshot, dy: int) -> int {
    clamped(
        win.placement.top + dy,
        win.monitor.top as int,
        win.monitor.bottom - win.placement.spec_height(),
    )
}

/// New top edge for a vertical offset `dy`. An auto-hidden taskbar keeps the
/// window below its hover zone at the top band; a docked one keeps the
/// window's bottom edge above it.
pub open spec fn target_y(win: WindowSnapshot, taskbar: Taskbar, dy: int) -> int {
    if taskbar.auto_hidden {
        spec_max(unadjusted_y(win, dy), win.monitor.top + taskbar.height)
    } else {
        spec_min(
            unadjusted_y(win, dy),
            win.monitor.bottom - win.placement.spec_height() - taskbar.height,
        )
    }
}

/// The position chosen for `win` when the drawn offsets are `(dx, dy)`;
/// `None` for a window that is left alone.
pub open spec fn placement_of(win: WindowSnapshot, taskbar: Taskbar, dx: int, dy: int) -> Option<
    (int, int),
> {
    if eligible(win) {
        Some((target_x(win, dx), target_y(win, taskbar, dy)))
    } else {
        None
    }
}

/// Every position that a placement of `win` can produce fits the coordinate
/// type: the window's rectangle has no negative extent, and the taskbar
/// correction stays inside the `i32` range.
pub open spec fn representable(win: WindowSnapshot, taskbar: Taskbar) -> bool {
    &&& win.placement.wf()
    &&& taskbar.auto_hidden ==> win.monitor.top + taskbar.height <= i32::MAX
    &&& !taskbar.auto_hidden ==> win.monitor.bottom - win.placement.spec_height() - taskbar.height
        >= i32::MIN
}

/// `(x, y)` is a position that the engine may return for `win`: there are
/// offsets within the effective bounds that lead to it.
pub open spec fn is_placement(
    win: WindowSnapshot,
    bounds: DisplacementBounds,
    taskbar: Taskbar,
    x: int,
    y: int,
) -> bool {
    exists|dx: int, dy: int|
        {
            &&& -max_dx(win, bounds) <= dx <= max_dx(win, bounds)
            &&& -max_dy(win, bounds) <= dy <= max_dy(win, bounds)
            &&& #[trigger] placement_of(win, taskbar, dx, dy) == Some((x, y))
        }
}

/// Tells whether the window takes part in a pass.
pub fn is_eligible(win: &WindowSnapshot) -> (b: bool)
    ensures
        b == eligible(*win),
{
    if !win.visible {
        return false;
    }
    if win.maximized || win.snapped || win.excluded {
        return false;
    }
    win.placement.width() <= win.monitor.width() && win.placement.height() <= win.monitor.height()
}

/// Tells whether every position that a placement can produce fits `i32`.
pub fn is_representable(win: &WindowSnapshot, taskbar: &Taskbar) -> (b: bool)
    ensures
        b == representable(*win, *taskbar),
{
    if !win.placement.is_well_formed() {
        return false;
    }
    if taskbar.auto_hidden {
        win.monitor.top as i64 + taskbar.height as i64 <= 2147483647
    } else {
        win.monitor.bottom as i64 - win.placement.height() - taskbar.height as i64 >= -2147483648
    }
}

/// The effective bounds `(mx, my)` for a window: offsets are drawn from
/// `[-mx, mx]` and `[-my, my]`.
pub fn effective_bounds(win: &WindowSnapshot, bounds: &DisplacementBounds) -> (m: (i32, i32))
    ensures
        m.0 == max_dx(*win, *bounds),
        m.1 == max_dy(*win, *bounds),
        m.0 >= 0,
        m.1 >= 0,
{
    let free_w: i64 = win.monitor.width() - win.placement.width();
    let free_h: i64 = win.monitor.height() - win.placement.height();
    let mx: i64 = lower_of(bounds.max_x as i64, free_w);
    let my: i64 = lower_of(bounds.max_y as i64, free_h);
    let mx: i64 = higher_of(0, mx);
    let my: i64 = higher_of(0, my);
    (mx as i32, my as i32)
}

fn lower_of(a: i64, b: i64) -> (r: i64)
    ensures
        r == spec_min(a as int, b as int),
{
    if a <= b {
        a
    } else {
        b
    }
}

fn higher_of(a: i64, b: i64) -> (r: i64)
    ensures
        r == spec_max(a as int, b as int),
{
    if a >= b {
        a
    } else {
        b
    }
}

/// The position for an eligible window once the offsets are known. This is
/// the whole of the engine but the drawing of the two offsets.
pub fn place_with_offsets(win: &WindowSnapshot, taskbar: &Taskbar, dx: i32, dy: i32) -> (r: Option<
    (i32, i32),
>)
    requires
        representable(*win, *taskbar),
    ensures
        r.is_some() == eligible(*win),
        r matches Some(p) ==> placement_of(*win, *taskbar, dx as int, dy as int) == Some(
            (p.0 as int, p.1 as int),
        ),
{
    if !is_eligible(win) {
        return None;
    }
    let w: i64 = win.placement.width();
    let h: i64 = win.placement.height();
    let cand_x: i64 = win.placement.left as i64 + dx as i64;
    let cand_y: i64 = win.placement.top as i64 + dy as i64;
    let x: i64 = higher_of(win.monitor.left as i64, lower_of(cand_x, win.monitor.right as i64 - w));
    let y: i64 = higher_of(win.monitor.top as i64, lower_of(cand_y, win.monitor.bottom as i64 - h));
    let y: i64 = if taskbar.auto_hidden {
        higher_of(y, win.monitor.top as i64 + taskbar.height as i64)
    } else {
        lower_of(y, win.monitor.bottom as i64 - h - taskbar.height as i64)
    };
    Some((x as i32, y as i32))
}

/// Draws from `rand::thread_rng()` with `Rng::gen_range(0..n)`. The contract
/// claims only what holds of every draw: the value lies in the half-open
/// range. The range must not be empty, or `gen_range` panics. That the draw
/// is uniform over the range is the generator's promise and is not stated.
#[verifier::external_body]
fn random_below(n: i64) -> (r: i64)
    requires
        n > 0,
    ensures
        0 <= r < n,
{
    rand::thread_rng().gen_range(0..n)
}

/// One offset from the closed range `[-m, m]`, every value of which can come
/// out.
pub fn draw_offset(m: i32) -> (d: i32)
    requires
        m >= 0,
    ensures
        -m <= d <= m,
        exists|r: int| 0 <= r < span_of(m as int) && d == #[trigger] centred(m as int, r),
{
    let span: i64 = 2 * (m as i64) + 1;
    let r: i64 = random_below(span);
    let d = offset_from_draw(m, r);
    assert(d == centred(m as int, r as int));
    d
}

/// Number of offsets in the closed range `[-m, m]`.
pub open spec fn span_of(m: int) -> int {
    2 * m + 1
}

/// The offset that draw `r` out of `span_of(m)` equally likely draws stands
/// for: the draws `0, 1, ..` are the offsets `-m, -m + 1, ..`, each once.
pub open spec fn centred(m: int, r: int) -> int {
    r - m
}

/// Turns a draw from `0..span_of(m)` into the offset it stands for. Distinct
/// draws give distinct offsets, and every offset of `[-m, m]` has its draw,
/// so offsets are spread as the draws are.
pub fn offset_from_draw(m: i32, r: i64) -> (d: i32)
    requires
        m >= 0,
        0 <= r < span_of(m as int),
    ensures
        d == centred(m as int, r as int),
        -m <= d <= m,
{
    (r - m as i64) as i32
}

/// The draws `0..span_of(m)` and the offsets `[-m, m]` correspond one to
/// one under `centred`.
pub proof fn lemma_centred_is_one_to_one(m: int, r1: int, r2: int, d: int)
    requires
        m >= 0,
    ensures
        0 <= r1 < span_of(m) ==> -m <= centred(m, r1) <= m,
        centred(m, r1) == centred(m, r2) ==> r1 == r2,
        -m <= d <= m ==> 0 <= d + m < span_of(m) && centred(m, d + m) == d,
{
}

/// Computes the next position of one window, or `None` when the window is
/// not eligible and must be left where it is.
pub fn place_window(win: &WindowSnapshot, bounds: &DisplacementBounds, taskbar: &Taskbar) -> (r:
    Option<(i32, i32)>)
    requires
        representable(*win, *taskbar),
    ensures
        r.is_some() == eligible(*win),
        r matches Some(p) ==> is_placement(*win, *bounds, *taskbar, p.0 as int, p.1 as int),
        r matches Some(p) ==> win.monitor.left <= p.0 <= win.monitor.right
            - win.placement.spec_width(),
        r matches Some(p) ==> (taskbar.height <= free_y(*win) ==> win.monitor.top <= p.1
            <= win.monitor.bottom - win.placement.spec_height()),
        r matches Some(p) ==> (taskbar.auto_hidden ==> p.1 >= win.monitor.top + taskbar.height),
        r matches Some(p) ==> (!taskbar.auto_hidden ==> p.1 + win.placement.spec_height()
            <= win.monitor.bottom - taskbar.height),
{
    if !is_eligible(win) {
        return None;
    }
    let m: (i32, i32) = effective_bounds(win, bounds);
    let dx: i32 = draw_offset(m.0);
    let dy: i32 = draw_offset(m.1);
    let r = place_with_offsets(win, taskbar, dx, dy);
    proof {
        if let Some(p) = r {
            assert(placement_of(*win, *taskbar, dx as int, dy as int) == Some(
                (p.0 as int, p.1 as int),
            ));
        }
    }
    r
}

/// A window that a pass can move: eligible, and with positions that fit.
pub open spec fn movable(win: WindowSnapshot, taskbar: Taskbar) -> bool {
    eligible(win) && representable(win, taskbar)
}

/// One pass over all windows. Entry `i` of the plan is the new position of
/// window `i`, or `None` when that window stays where it is. A window whose
/// positions would not fit the coordinate type is skipped like an ineligible
/// one; the pass always covers every window.
pub fn plan_moves(
    windows: &Vec<WindowSnapshot>,
    bounds: &DisplacementBounds,
    taskbar: &Taskbar,
) -> (plan: Vec<Option<(i32, i32)>>)
    ensures
        plan@.len() == windows@.len(),
        forall|i: int|
            0 <= i < windows@.len() ==> (#[trigger] plan@[i]).is_some() == movable(
                windows@[i],
                *taskbar,
            ),
        forall|i: int|
            0 <= i < windows@.len() ==> (#[trigger] plan@[i] matches Some(p) ==> is_placement(
                windows@[i],
                *bounds,
                *taskbar,
                p.0 as int,
                p.1 as int,
            )),
{
    let mut plan: Vec<Option<(i32, i32)>> = Vec::new();
    let mut i: usize = 0;
    while i < windows.len()
        invariant
            i <= windows@.len(),
            plan@.len() == i,
            forall|k: int|
                0 <= k < i ==> (#[trigger] plan@[k]).is_some() == movable(windows@[k], *taskbar),
            forall|k: int|
                0 <= k < i ==> (#[trigger] plan@[k] matches Some(p) ==> is_placement(
                    windows@[k],
                    *bounds,
                    *taskbar,
                    p.0 as int,
                    p.1 as int,
                )),
        decreases windows@.len() - i,
    {
        let win = &windows[i];
        let step = if is_representable(win, taskbar) {
            place_window(win, bounds, taskbar)
        } else {
            None
        };
        plan.push(step);
        i += 1;
    }
    plan
}

/// Window classes that are never moved: the tray's context menu, the
/// narrator's helper overlay, and the taskbar's overflow flyout.
pub open spec fn excluded_class(name: Seq<char>) -> bool {
    ||| name == "#32768"@
    ||| name == "NarratorHelperWindow"@
    ||| name == "TopLevelWindowForOverflowXamlIsland"@
}

/// Tells whether a window of this class is on the exclusion list.
pub fn is_excluded_class(class_name: &str) -> (b: bool)
    ensures
        b == excluded_class(class_name@),
{
    let name = class_name.to_owned();
    name == "#32768".to_owned() || name == "NarratorHelperWindow".to_owned() || name
        == "TopLevelWindowForOverflowXamlIsland".to_owned()
}

/// Every position computed for an eligible window keeps the window's left
/// edge between the monitor's left edge and the last column at which its
/// right edge is still on the monitor. The same holds vertically whenever
/// the taskbar leaves room for the window, that is, its height does not
/// exceed the free room below the window.
pub proof fn lemma_placement_stays_on_monitor(
    win: WindowSnapshot,
    taskbar: Taskbar,
    dx: int,
    dy: int,
)
    requires
        eligible(win),
    ensures
        win.monitor.left <= target_x(win, dx) <= win.monitor.right - win.placement.spec_width(),
        win.monitor.top <= unadjusted_y(win, dy) <= win.monitor.bottom
            - win.placement.spec_height(),
        taskbar.height <= free_y(win) ==> win.monitor.top <= target_y(win, taskbar, dy)
            <= win.monitor.bottom - win.placement.spec_height(),
{
}

/// For an eligible window and non-negative configured bounds, the range
/// that an offset is drawn from is bounded by the smaller of the configured
/// bound and the free room on the monitor, on each axis; and every position
/// the engine may return comes from offsets no larger than that.
pub proof fn lemma_offsets_within_bounds(
    win: WindowSnapshot,
    bounds: DisplacementBounds,
    taskbar: Taskbar,
    x: int,
    y: int,
)
    requires
        eligible(win),
        bounds.wf(),
    ensures
        max_dx(win, bounds) == spec_min(bounds.max_x as int, free_x(win)),
        max_dy(win, bounds) == spec_min(bounds.max_y as int, free_y(win)),
        is_placement(win, bounds, taskbar, x, y) ==> exists|dx: int, dy: int|
            {
                &&& -spec_min(bounds.max_x as int, free_x(win)) <= dx <= spec_min(
                    bounds.max_x as int,
                    free_x(win),
                )
                &&& -spec_min(bounds.max_y as int, free_y(win)) <= dy <= spec_min(
                    bounds.max_y as int,
                    free_y(win),
                )
                &&& #[trigger] placement_of(win, taskbar, dx, dy) == Some((x, y))
            },
{
}

/// With an auto-hidden taskbar no computed top edge lies above the taskbar's
/// hover zone; with a docked taskbar no computed bottom edge lies below the
/// taskbar's upper edge. This holds for every window and every offset.
pub proof fn lemma_taskbar_clamp(win: WindowSnapshot, taskbar: Taskbar, dy: int)
    ensures
        taskbar.auto_hidden ==> target_y(win, taskbar, dy) >= win.monitor.top + taskbar.height,
        !taskbar.auto_hidden ==> target_y(win, taskbar, dy) + win.placement.spec_height()
            <= win.monitor.bottom - taskbar.height,
{
}

/// The window as the next pass finds it after one tick with the given
/// taskbar and drawn offsets: unchanged when no position is computed,
/// else shifted, with its size kept, to the computed position.
pub open spec fn after_tick(win: WindowSnapshot, taskbar: Taskbar, dx: int, dy: int)
    -> WindowSnapshot {
    match placement_of(win, taskbar, dx, dy) {
        None => win,
        Some(p) => WindowSnapshot {
            placement: MonitorRect {
                left: p.0 as i32,
                top: p.1 as i32,
                right: (p.0 + win.placement.spec_width()) as i32,
                bottom: (p.1 + win.placement.spec_height()) as i32,
            },
            ..win
        },
    }
}

/// The window after a whole sequence of ticks, each with its own taskbar
/// state and drawn offsets.
pub open spec fn after_ticks(win: WindowSnapshot, ticks: Seq<(Taskbar, int, int)>)
    -> WindowSnapshot
    decreases ticks.len(),
{
    if ticks.len() == 0 {
        win
    } else {
        let t = ticks.last();
        after_tick(after_ticks(win, ticks.drop_last()), t.0, t.1, t.2)
    }
}

/// A hidden, maximized, snapped or excluded window is never given a
/// position, whatever the offsets and the taskbar; so however many ticks
/// elapse, it is where it was.
pub proof fn lemma_ineligible_window_never_moves(
    win: WindowSnapshot,
    ticks: Seq<(Taskbar, int, int)>,
)
    requires
        !win.visible || win.maximized || win.snapped || win.excluded,
    ensures
        forall|taskbar: Taskbar, dx: int, dy: int|
            (#[trigger] placement_of(win, taskbar, dx, dy)).is_none(),
        after_ticks(win, ticks) == win,
    decreases ticks.len(),
{
    if ticks.len() > 0 {
        lemma_ineligible_window_never_moves(win, ticks.drop_last());
    }
}

} // verus!
