//! The directional window selector: screen-bounds computation, the
//! window eligibility filter, geometric scoring of candidates in a
//! compass direction, and title matching. The algorithms work on plain
//! value snapshots of windows and monitors, so they are independent of
//! any display.

use vstd::prelude::*;

use crate::state::Direction;
use crate::text::{contains_seq, eq_ignore_case, lower_of, lower_seq, lowercase, str_contains, str_eq};

verus! {

/// The smallest width a window may have and still be a switch target.
pub const MIN_VALID_WINDOW_WIDTH: i64 = 30;

/// The smallest height a window may have and still be a switch target.
pub const MIN_VALID_WINDOW_HEIGHT: i64 = 30;

/// A window or monitor rectangle in screen pixels.
#[derive(Debug, Copy, Clone, PartialEq, Eq, Structural)]
pub struct Rect {
    pub left: i32,
    pub top: i32,
    pub right: i32,
    pub bottom: i32,
}

impl Rect {
    /// Twice the x coordinate of the rectangle's center. Doubling keeps
    /// the coordinate an integer when the width is odd.
    pub open spec fn spec_center2_x(self) -> int {
        self.left + self.right
    }

    /// Twice the y coordinate of the rectangle's center.
    pub open spec fn spec_center2_y(self) -> int {
        self.top + self.bottom
    }

    pub open spec fn spec_width(self) -> int {
        self.right - self.left
    }

    pub open spec fn spec_height(self) -> int {
        self.bottom - self.top
    }
}

/// The width of `rect`.
pub fn rect_width(rect: Rect) -> (w: i64)
    ensures
        w == rect.spec_width(),
{
    rect.right as i64 - rect.left as i64
}

/// The height of `rect`.
pub fn rect_height(rect: Rect) -> (h: i64)
    ensures
        h == rect.spec_height(),
{
    rect.bottom as i64 - rect.top as i64
}

/// The center of `rect` in doubled coordinates, so that half-pixel
/// centers stay exact.
pub fn rect_center(rect: Rect) -> (c: (i64, i64))
    ensures
        c.0 == rect.spec_center2_x(),
        c.1 == rect.spec_center2_y(),
{
    (rect.left as i64 + rect.right as i64, rect.top as i64 + rect.bottom as i64)
}

/// The union of all monitor rectangles: the virtual screen.
#[derive(Debug, Copy, Clone, PartialEq, Eq, Structural)]
pub struct ScreenBounds {
    pub start_x: i32,
    pub start_y: i32,
    pub end_x: i32,
    pub end_y: i32,
    pub total_width: i64,
    pub total_height: i64,
    /// The squared diagonal of the virtual screen, `width² + height²`.
    pub diagonal_square: i128,
}

/// The smallest `left` among the monitors.
pub open spec fn spec_min_left(s: Seq<Rect>) -> int
    decreases s.len(),
{
    if s.len() <= 1 {
        s[0].left as int
    } else if s.last().left < spec_min_left(s.drop_last()) {
        s.last().left as int
    } else {
        spec_min_left(s.drop_last())
    }
}

/// The smallest `top` among the monitors.
pub open spec fn spec_min_top(s: Seq<Rect>) -> int
    decreases s.len(),
{
    if s.len() <= 1 {
        s[0].top as int
    } else if s.last().top < spec_min_top(s.drop_last()) {
        s.last().top as int
    } else {
        spec_min_top(s.drop_last())
    }
}

/// The largest `right` among the monitors.
pub open spec fn spec_max_right(s: Seq<Rect>) -> int
    decreases s.len(),
{
    if s.len() <= 1 {
        s[0].right as int
    } else if s.last().right > spec_max_right(s.drop_last()) {
        s.last().right as int
    } else {
        spec_max_right(s.drop_last())
    }
}

/// The largest `bottom` among the monitors.
pub open spec fn spec_max_bottom(s: Seq<Rect>) -> int
    decreases s.len(),
{
    if s.len() <= 1 {
        s[0].bottom as int
    } else if s.last().bottom > spec_max_bottom(s.drop_last()) {
        s.last().bottom as int
    } else {
        spec_max_bottom(s.drop_last())
    }
}

/// The screen bounds described by a monitor list.
pub open spec fn spec_screen_bounds(s: Seq<Rect>) -> ScreenBounds {
    let sx = spec_min_left(s);
    let sy = spec_min_top(s);
    let ex = spec_max_right(s);
    let ey = spec_max_bottom(s);
    ScreenBounds {
        start_x: sx as i32,
        start_y: sy as i32,
        end_x: ex as i32,
        end_y: ey as i32,
        total_width: (ex - sx) as i64,
        total_height: (ey - sy) as i64,
        diagonal_square: ((ex - sx) * (ex - sx) + (ey - sy) * (ey - sy)) as i128,
    }
}

/// Computes the virtual screen bounds from the monitor rectangles, or
/// nothing when no monitor was reported.
pub fn update_screen_size(monitors: &Vec<Rect>) -> (r: Option<ScreenBounds>)
    ensures
        r is Some <==> monitors@.len() > 0,
        r matches Some(b) ==> b == spec_screen_bounds(monitors@),
{
    if monitors.len() == 0 {
        return None;
    }
    let first = monitors[0];
    let mut start_x: i32 = first.left;
    let mut start_y: i32 = first.top;
    let mut end_x: i32 = first.right;
    let mut end_y: i32 = first.bottom;
    let n: usize = monitors.len();
    let mut i: usize = 1;
    while i < n
        invariant
            n == monitors@.len(),
            1 <= i <= n,
            start_x == spec_min_left(monitors@.take(i as int)),
            start_y == spec_min_top(monitors@.take(i as int)),
            end_x == spec_max_right(monitors@.take(i as int)),
            end_y == spec_max_bottom(monitors@.take(i as int)),
        decreases n - i,
    {
        let m = monitors[i];
        proof {
            assert(monitors@.take(i + 1).drop_last() =~= monitors@.take(i as int));
            assert(monitors@.take(i + 1).last() == monitors@[i as int]);
        }
        if m.left < start_x {
            start_x = m.left;
        }
        if m.top < start_y {
            start_y = m.top;
        }
        if m.right > end_x {
            end_x = m.right;
        }
        if m.bottom > end_y {
            end_y = m.bottom;
        }
        i = i + 1;
    }
    proof {
        assert(monitors@.take(n as int) =~= monitors@);
    }
    let total_width: i64 = end_x as i64 - start_x as i64;
    let total_height: i64 = end_y as i64 - start_y as i64;
    proof {
        let tw = total_width as int;
        let th = total_height as int;
        assert(tw * tw >= 0 && tw * tw < 0x2_0000_0000_0000_0000) by (nonlinear_arith)
            requires
                -0x1_0000_0000 < tw && tw < 0x1_0000_0000,
        {
        }
        assert(th * th >= 0 && th * th < 0x2_0000_0000_0000_0000) by (nonlinear_arith)
            requires
                -0x1_0000_0000 < th && th < 0x1_0000_0000,
        {
        }
    }
    let diagonal_square: i128 = total_width as i128 * total_width as i128 + total_height as i128
        * total_height as i128;
    Some(
        ScreenBounds {
            start_x,
            start_y,
            end_x,
            end_y,
            total_width,
            total_height,
            diagonal_square,
        },
    )
}

/// One top-level window as the selector sees it: an opaque handle and
/// the rectangle captured at enumeration time.
#[derive(Debug, Copy, Clone, PartialEq, Eq, Structural)]
pub struct WindowInfo {
    /// The opaque window id.
    pub handle: u64,
    /// The window rectangle, a snapshot from enumeration time.
    pub rect: Rect,
}

/// Everything the eligibility filter asks the system about one window,
/// captured at enumeration time.
#[derive(Debug, Clone)]
pub struct WindowProbe {
    /// The opaque window id.
    pub handle: u64,
    /// The window rectangle.
    pub rect: Rect,
    /// The window is currently visible.
    pub visible: bool,
    /// The window title, already trimmed; empty when the window has no
    /// usable title.
    pub title: String,
    /// The id of the process owning the window.
    pub pid: u32,
    /// The window is maximized.
    pub maximized: bool,
    /// The root ancestor of the window found by hit-testing the center
    /// point, when the hit test found one.
    pub center_root: Option<u64>,
    /// The window's own root ancestor.
    pub root: u64,
}

/// The mathematical value of a [`WindowProbe`].
#[verifier::ext_equal]
pub struct ProbeV {
    pub handle: u64,
    pub rect: Rect,
    pub visible: bool,
    pub title: Seq<char>,
    pub pid: u32,
    pub maximized: bool,
    pub center_root: Option<u64>,
    pub root: u64,
}

impl View for WindowProbe {
    type V = ProbeV;

    open spec fn view(&self) -> ProbeV {
        ProbeV {
            handle: self.handle,
            rect: self.rect,
            visible: self.visible,
            title: self.title@,
            pid: self.pid,
            maximized: self.maximized,
            center_root: self.center_root,
            root: self.root,
        }
    }
}

/// The views of a probe list.
pub open spec fn probes_views(v: Seq<WindowProbe>) -> Seq<ProbeV> {
    v.map_values(|p: WindowProbe| p@)
}

/// The window's center lies within the virtual screen bounds.
pub open spec fn spec_center_in_bounds(rect: Rect, bounds: ScreenBounds) -> bool {
    &&& rect.spec_center2_x() >= 2 * bounds.start_x
    &&& rect.spec_center2_x() <= 2 * bounds.end_x
    &&& rect.spec_center2_y() >= 2 * bounds.start_y
    &&& rect.spec_center2_y() <= 2 * bounds.end_y
}

/// The rectangle overlaps the virtual screen and has a sane size: at
/// least the minimum in each dimension and no larger than the screen.
pub open spec fn spec_partly_onscreen(rect: Rect, bounds: ScreenBounds) -> bool {
    &&& rect.right >= bounds.start_x
    &&& rect.bottom >= bounds.start_y
    &&& rect.left <= bounds.end_x
    &&& rect.top <= bounds.end_y
    &&& rect.spec_width() >= MIN_VALID_WINDOW_WIDTH
    &&& rect.spec_width() <= bounds.total_width
    &&& rect.spec_height() >= MIN_VALID_WINDOW_HEIGHT
    &&& rect.spec_height() <= bounds.total_height
}

/// A window is eligible for switching when it is visible, has a title,
/// belongs to another process, has its center on the virtual screen,
/// is the topmost window at its own center, and is either maximized or
/// partly on screen with a sane size.
pub open spec fn spec_eligible(p: ProbeV, bounds: ScreenBounds, current_pid: u32) -> bool {
    &&& p.visible
    &&& p.title.len() > 0
    &&& p.pid != current_pid
    &&& spec_center_in_bounds(p.rect, bounds)
    &&& p.center_root == Some(p.root)
    &&& (p.maximized || spec_partly_onscreen(p.rect, bounds))
}

/// Applies the eligibility filter to one window, returning its selector
/// snapshot when it qualifies.
pub fn is_valid_window(probe: &WindowProbe, bounds: &ScreenBounds, current_pid: u32) -> (r: Option<
    WindowInfo,
>)
    ensures
        r is Some <==> spec_eligible(probe@, *bounds, current_pid),
        r matches Some(w) ==> w == (WindowInfo { handle: probe.handle, rect: probe.rect }),
{
    if !probe.visible {
        return None;
    }
    if probe.title.as_str().unicode_len() == 0 {
        return None;
    }
    if probe.pid == current_pid {
        return None;
    }
    let (cx2, cy2) = rect_center(probe.rect);
    if cx2 < 2 * (bounds.start_x as i64) || cx2 > 2 * (bounds.end_x as i64) {
        return None;
    }
    if cy2 < 2 * (bounds.start_y as i64) || cy2 > 2 * (bounds.end_y as i64) {
        return None;
    }
    let root_matches = match probe.center_root {
        Some(h) => h == probe.root,
        None => false,
    };
    if !root_matches {
        return None;
    }
    let width = rect_width(probe.rect);
    let height = rect_height(probe.rect);
    let partly_onscreen = probe.rect.right >= bounds.start_x && probe.rect.bottom >= bounds.start_y
        && probe.rect.left <= bounds.end_x && probe.rect.top <= bounds.end_y && width
        >= MIN_VALID_WINDOW_WIDTH && width <= bounds.total_width && height
        >= MIN_VALID_WINDOW_HEIGHT && height <= bounds.total_height;
    if !(probe.maximized || partly_onscreen) {
        return None;
    }
    Some(WindowInfo { handle: probe.handle, rect: probe.rect })
}

/// The eligible windows of a probe list, in enumeration order.
pub open spec fn spec_valid_windows(s: Seq<ProbeV>, bounds: ScreenBounds, current_pid: u32) -> Seq<
    WindowInfo,
>
    decreases s.len(),
{
    if s.len() == 0 {
        Seq::empty()
    } else {
        let rest = spec_valid_windows(s.drop_last(), bounds, current_pid);
        if spec_eligible(s.last(), bounds, current_pid) {
            rest.push(WindowInfo { handle: s.last().handle, rect: s.last().rect })
        } else {
            rest
        }
    }
}

/// Filters a probe list down to the eligible windows, keeping
/// enumeration order.
pub fn enumerate_valid_windows(
    probes: &Vec<WindowProbe>,
    bounds: &ScreenBounds,
    current_pid: u32,
) -> (r: Vec<WindowInfo>)
    ensures
        r@ == spec_valid_windows(probes_views(probes@), *bounds, current_pid),
{
    let ghost pv = probes_views(probes@);
    let mut out: Vec<WindowInfo> = Vec::new();
    let n: usize = probes.len();
    let mut i: usize = 0;
    while i < n
        invariant
            n == probes@.len(),
            0 <= i <= n,
            pv == probes_views(probes@),
            pv.len() == n,
            out@ == spec_valid_windows(pv.take(i as int), *bounds, current_pid),
        decreases n - i,
    {
        proof {
            assert(pv.take(i + 1).drop_last() =~= pv.take(i as int));
            assert(pv.take(i + 1).last() == pv[i as int]);
            assert(pv[i as int] == probes@[i as int]@);
        }
        match is_valid_window(&probes[i], bounds, current_pid) {
            Some(w) => {
                out.push(w);
            },
            None => {
            },
        }
        i = i + 1;
    }
    proof {
        assert(pv.take(n as int) =~= pv);
    }
    out
}

/// The index of the first window whose handle is the foreground handle,
/// if any.
pub open spec fn spec_focused_index(ws: Seq<WindowInfo>, foreground: Option<u64>) -> Option<int>
    decreases ws.len(),
{
    match foreground {
        None => None,
        Some(f) => if ws.len() == 0 {
            None
        } else if ws[0].handle == f {
            Some(0)
        } else {
            match spec_focused_index(ws.skip(1), foreground) {
                Some(i) => Some(i + 1),
                None => None,
            }
        },
    }
}

proof fn lemma_focused_index_characterization(ws: Seq<WindowInfo>, foreground: Option<u64>)
    ensures
        match spec_focused_index(ws, foreground) {
            Some(i) => 0 <= i < ws.len() && foreground == Some(ws[i].handle) && forall|j: int|
                0 <= j < i ==> Some(ws[j].handle) != foreground,
            None => foreground is None || forall|j: int|
                0 <= j < ws.len() ==> Some(ws[j].handle) != foreground,
        },
    decreases ws.len(),
{
    match foreground {
        None => {},
        Some(f) => {
            if ws.len() == 0 {
            } else if ws[0].handle == f {
            } else {
                lemma_focused_index_characterization(ws.skip(1), foreground);
                assert(forall|j: int| 0 < j < ws.len() ==> ws.skip(1)[j - 1] == ws[j]);
            }
        },
    }
}

/// Finds the currently focused window within the eligible set.
pub fn select_focused(windows: &Vec<WindowInfo>, foreground: Option<u64>) -> (r: Option<usize>)
    ensures
        match r {
            Some(i) => spec_focused_index(windows@, foreground) == Some(i as int),
            None => spec_focused_index(windows@, foreground) is None,
        },
{
    proof {
        lemma_focused_index_characterization(windows@, foreground);
    }
    let f = match foreground {
        None => {
            return None;
        },
        Some(f) => f,
    };
    let n: usize = windows.len();
    let mut i: usize = 0;
    while i < n
        invariant
            n == windows@.len(),
            0 <= i <= n,
            foreground == Some(f),
            forall|j: int| 0 <= j < i ==> Some(windows@[j].handle) != foreground,
        decreases n - i,
    {
        if windows[i].handle == f {
            proof {
                lemma_focused_index_characterization(windows@, foreground);
                match spec_focused_index(windows@, foreground) {
                    Some(k) => {
                        if k < i {
                            assert(Some(windows@[k].handle) != foreground);
                        }
                        if k > i {
                            assert(Some(windows@[i as int].handle) != foreground);
                        }
                    },
                    None => {
                        assert(Some(windows@[i as int].handle) != foreground);
                    },
                }
            }
            return Some(i);
        }
        i = i + 1;
    }
    proof {
        lemma_focused_index_characterization(windows@, foreground);
    }
    None
}

/// A window whose rectangle lies fully outside the virtual screen bounds
/// is never eligible, whatever its title, visibility or other state: its
/// center necessarily lies outside the bounds as well.
pub proof fn lemma_fully_outside_never_eligible(p: ProbeV, bounds: ScreenBounds, current_pid: u32)
    requires
        p.rect.left <= p.rect.right,
        p.rect.top <= p.rect.bottom,
        p.rect.right < bounds.start_x || p.rect.left > bounds.end_x || p.rect.bottom
            < bounds.start_y || p.rect.top > bounds.end_y,
    ensures
        !spec_eligible(p, bounds, current_pid),
{
    if p.rect.right < bounds.start_x {
        assert(p.rect.spec_center2_x() < 2 * bounds.start_x);
    } else if p.rect.left > bounds.end_x {
        assert(p.rect.spec_center2_x() > 2 * bounds.end_x);
    } else if p.rect.bottom < bounds.start_y {
        assert(p.rect.spec_center2_y() < 2 * bounds.start_y);
    } else {
        assert(p.rect.spec_center2_y() > 2 * bounds.end_y);
    }
}

/// The absolute value of an integer.
pub open spec fn spec_abs(x: int) -> int {
    if x < 0 {
        -x
    } else {
        x
    }
}

/// The first-octant arctangent in millidegrees: for `0 < a <= b`, an
/// integer approximation of `atan(a / b)`, exact at `a == b` (45
/// degrees) and within a fraction of a degree elsewhere.
pub open spec fn spec_atan_octant(a: int, b: int) -> int {
    (45000 * a * b + 15640 * a * (b - a)) / (b * b)
}

/// The angle of the vector `(dx, dy)` in millidegrees, measured like
/// `atan2(dy, dx)`: 0 along positive x, positive toward positive y,
/// in `(-180 000, 180 000]`, and 0 for the zero vector.
pub open spec fn spec_angle_mdeg(dx: int, dy: int) -> int {
    if dx == 0 && dy == 0 {
        0
    } else if dx == 0 {
        if dy > 0 {
            90000
        } else {
            -90000
        }
    } else if dy == 0 {
        if dx > 0 {
            0
        } else {
            180000
        }
    } else {
        let ax = spec_abs(dx);
        let ay = spec_abs(dy);
        let t = if ay <= ax {
            spec_atan_octant(ay, ax)
        } else {
            90000 - spec_atan_octant(ax, ay)
        };
        if dx > 0 {
            if dy > 0 {
                t
            } else {
                -t
            }
        } else {
            if dy > 0 {
                180000 - t
            } else {
                t - 180000
            }
        }
    }
}

/// The octant arctangent lies between 0 and 45 degrees.
pub proof fn lemma_atan_octant_range(a: int, b: int)
    requires
        0 < a <= b,
    ensures
        0 <= spec_atan_octant(a, b) <= 45000,
{
    let num = 45000 * a * b + 15640 * a * (b - a);
    let den = b * b;
    assert(45000 * a * b + 15640 * a * (b - a) >= 0 && b * b > 0) by (nonlinear_arith)
        requires
            0 < a <= b,
    {
    }
    assert((b - a) * (45000 * b - 15640 * a) >= 0) by (nonlinear_arith)
        requires
            0 < a <= b,
    {
    }
    assert(45000 * (b * b) - (45000 * a * b + 15640 * a * (b - a)) == (b - a) * (45000 * b - 15640
        * a)) by (nonlinear_arith);
    assert(num <= 45000 * den);
    vstd::arithmetic::div_mod::lemma_div_pos_is_pos(num, den);
    vstd::arithmetic::div_mod::lemma_div_is_ordered(num, 45000 * den, den);
    vstd::arithmetic::div_mod::lemma_div_by_multiple(45000, den);
}

/// The angle lies between -180 and 180 degrees.
pub proof fn lemma_angle_range(dx: int, dy: int)
    ensures
        -180000 <= spec_angle_mdeg(dx, dy) <= 180000,
{
    if dx != 0 && dy != 0 {
        let ax = spec_abs(dx);
        let ay = spec_abs(dy);
        if ay <= ax {
            lemma_atan_octant_range(ay, ax);
        } else {
            lemma_atan_octant_range(ax, ay);
        }
    }
}

/// Mirroring a vector about the y axis mirrors its angle about the
/// 90-degree axis: the magnitudes of the two angles sum to 180 degrees,
/// except for a vector pointing straight up, down or nowhere, whose
/// angle is unchanged.
pub proof fn lemma_angle_mirror(dx: int, dy: int)
    ensures
        dx != 0 ==> spec_abs(spec_angle_mdeg(-dx, dy)) == 180000 - spec_abs(
            spec_angle_mdeg(dx, dy),
        ),
        dx == 0 ==> spec_angle_mdeg(-dx, dy) == spec_angle_mdeg(dx, dy),
{
    if dx != 0 && dy != 0 {
        let ax = spec_abs(dx);
        let ay = spec_abs(dy);
        assert(spec_abs(-dx) == ax);
        if ay <= ax {
            lemma_atan_octant_range(ay, ax);
        } else {
            lemma_atan_octant_range(ax, ay);
        }
    }
}

/// The direction-mismatch score in millidegrees: how far the candidate's
/// angle is from the direction's target angle. For `Left` the magnitude
/// of the angle is compared against 180 degrees, because both 180 and
/// -180 degrees mean "left".
pub open spec fn spec_adiff_mdeg(direction: Direction, angle: int) -> int {
    if direction == Direction::Left {
        spec_abs(180000 - spec_abs(angle))
    } else {
        spec_abs(direction.spec_angle() - angle)
    }
}

/// The selection weight of a candidate at offset `(dx, dy)` from the
/// focused window's center, scaled to an exact integer. `diag4` is four
/// times the squared screen diagonal, the squared diagonal in the
/// doubled coordinates of `dx` and `dy`. With `w` the original weight
/// `0.6·d²/diag² + 0.4·adiff/180 000`, this is `w · 900 000 · diag4`;
/// when the diagonal is degenerate the distance term is dropped and the
/// result is `w · 900 000`. Either way the scale is one constant for
/// all candidates of one call, so comparisons are unchanged.
pub open spec fn spec_weight_scaled(direction: Direction, dx: int, dy: int, diag4: int) -> int {
    let d2 = dx * dx + dy * dy;
    let adiff = spec_adiff_mdeg(direction, spec_angle_mdeg(dx, dy));
    if diag4 > 0 {
        540000 * d2 + 2 * adiff * diag4
    } else {
        2 * adiff
    }
}

/// Directional weight is symmetric under relabeling: swapping the
/// `Left` and `Right` targets while negating the x offset of a
/// candidate leaves its weight unchanged, so the mirrored ranking
/// reproduces the original one. The one excluded input is a candidate
/// whose center coincides with the focused center, where the angle
/// convention for the zero vector breaks the symmetry.
pub proof fn lemma_weight_mirror_left_right(dx: int, dy: int, diag4: int)
    requires
        dx != 0 || dy != 0,
    ensures
        spec_weight_scaled(Direction::Right, dx, dy, diag4) == spec_weight_scaled(
            Direction::Left,
            -dx,
            dy,
            diag4,
        ),
        spec_weight_scaled(Direction::Left, dx, dy, diag4) == spec_weight_scaled(
            Direction::Right,
            -dx,
            dy,
            diag4,
        ),
{
    lemma_angle_mirror(dx, dy);
    lemma_angle_mirror(-dx, dy);
    lemma_angle_range(dx, dy);
    lemma_angle_range(-dx, dy);
    assert(dx * dx == (-dx) * (-dx)) by (nonlinear_arith);
    let a = spec_angle_mdeg(dx, dy);
    let am = spec_angle_mdeg(-dx, dy);
    if dx == 0 {
        assert(spec_abs(a) == 90000);
        assert(spec_adiff_mdeg(Direction::Right, a) == spec_adiff_mdeg(Direction::Left, am));
        assert(spec_adiff_mdeg(Direction::Left, a) == spec_adiff_mdeg(Direction::Right, am));
    } else {
        assert(spec_abs(am) == 180000 - spec_abs(a));
        assert(spec_adiff_mdeg(Direction::Right, a) == spec_abs(a));
        assert(spec_adiff_mdeg(Direction::Left, am) == spec_abs(180000 - spec_abs(am)));
        assert(spec_adiff_mdeg(Direction::Left, am) == spec_abs(a));
        assert(spec_adiff_mdeg(Direction::Left, a) == 180000 - spec_abs(a));
        assert(spec_adiff_mdeg(Direction::Right, am) == spec_abs(am));
    }
}

/// Mirrored comparisons: with the targets swapped and the x offsets
/// negated, one candidate outweighs another exactly as before.
pub proof fn lemma_mirror_ranking(dx1: int, dy1: int, dx2: int, dy2: int, diag4: int)
    requires
        dx1 != 0 || dy1 != 0,
        dx2 != 0 || dy2 != 0,
    ensures
        (spec_weight_scaled(Direction::Right, dx1, dy1, diag4) < spec_weight_scaled(
            Direction::Right,
            dx2,
            dy2,
            diag4,
        )) <==> (spec_weight_scaled(Direction::Left, -dx1, dy1, diag4) < spec_weight_scaled(
            Direction::Left,
            -dx2,
            dy2,
            diag4,
        )),
{
    lemma_weight_mirror_left_right(dx1, dy1, diag4);
    lemma_weight_mirror_left_right(dx2, dy2, diag4);
}

fn atan_octant(a: i64, b: i64) -> (r: i64)
    requires
        0 < a,
        a <= b,
        b <= 0x2_0000_0000,
    ensures
        r == spec_atan_octant(a as int, b as int),
        0 <= r <= 45000,
{
    proof {
        lemma_atan_octant_range(a as int, b as int);
    }
    let ai: i128 = a as i128;
    let bi: i128 = b as i128;
    proof {
        assert(0 <= 45000 * ai * bi < 0x1_0000_0000_0000_0000_0000_0000 && 0 <= 15640 * ai * (bi
            - ai) < 0x1_0000_0000_0000_0000_0000_0000 && 0 < bi * bi
            <= 0x4_0000_0000_0000_0000) by (nonlinear_arith)
            requires
                0 < ai,
                ai <= bi,
                bi <= 0x2_0000_0000,
        {
        }
    }
    let num: i128 = 45000 * ai * bi + 15640 * ai * (bi - ai);
    let den: i128 = bi * bi;
    let q: u128 = (num as u128) / (den as u128);
    proof {
        assert(q == spec_atan_octant(a as int, b as int));
    }
    q as i64
}

/// The angle of the vector `(dx, dy)` in millidegrees.
pub fn angle_mdeg(dx: i64, dy: i64) -> (r: i64)
    requires
        -0x2_0000_0000 <= dx <= 0x2_0000_0000,
        -0x2_0000_0000 <= dy <= 0x2_0000_0000,
    ensures
        r == spec_angle_mdeg(dx as int, dy as int),
        -180000 <= r <= 180000,
{
    proof {
        lemma_angle_range(dx as int, dy as int);
    }
    if dx == 0 && dy == 0 {
        return 0;
    }
    if dx == 0 {
        return if dy > 0 {
            90000
        } else {
            -90000
        };
    }
    if dy == 0 {
        return if dx > 0 {
            0
        } else {
            180000
        };
    }
    let ax: i64 = if dx < 0 {
        -dx
    } else {
        dx
    };
    let ay: i64 = if dy < 0 {
        -dy
    } else {
        dy
    };
    let t: i64 = if ay <= ax {
        atan_octant(ay, ax)
    } else {
        90000 - atan_octant(ax, ay)
    };
    if dx > 0 {
        if dy > 0 {
            t
        } else {
            -t
        }
    } else {
        if dy > 0 {
            180000 - t
        } else {
            t - 180000
        }
    }
}

/// The selection weight of a candidate at offset `(dx, dy)`, scaled to
/// an exact integer; lower is better.
pub fn weight_scaled(direction: Direction, dx: i64, dy: i64, diag4: i128) -> (w: i128)
    requires
        -0x2_0000_0000 <= dx <= 0x2_0000_0000,
        -0x2_0000_0000 <= dy <= 0x2_0000_0000,
        0 <= diag4 <= 0x10_0000_0000_0000_0000,
    ensures
        w == spec_weight_scaled(direction, dx as int, dy as int, diag4 as int),
{
    let a = angle_mdeg(dx, dy);
    let aa: i64 = if a < 0 {
        -a
    } else {
        a
    };
    let adiff: i64 = if matches!(direction, Direction::Left) {
        let d: i64 = 180000 - aa;
        if d < 0 {
            -d
        } else {
            d
        }
    } else {
        let d: i64 = direction.angle() - a;
        if d < 0 {
            -d
        } else {
            d
        }
    };
    let dxi: i128 = dx as i128;
    let dyi: i128 = dy as i128;
    proof {
        assert(0 <= dxi * dxi <= 0x4_0000_0000_0000_0000 && 0 <= dyi * dyi
            <= 0x4_0000_0000_0000_0000) by (nonlinear_arith)
            requires
                -0x2_0000_0000 <= dxi <= 0x2_0000_0000,
                -0x2_0000_0000 <= dyi <= 0x2_0000_0000,
        {
        }
    }
    let d2: i128 = dxi * dxi + dyi * dyi;
    if diag4 > 0 {
        proof {
            assert(0 <= 2 * (adiff as i128) * diag4 <= 0x1000_0000_0000_0000_0000_0000) by (
            nonlinear_arith)
                requires
                    0 <= adiff as i128 <= 270000,
                    0 <= diag4 <= 0x10_0000_0000_0000_0000,
            {
            }
        }
        540000 * d2 + 2 * (adiff as i128) * diag4
    } else {
        2 * (adiff as i128)
    }
}

/// The weight of candidate `j` relative to the focused window `fi`.
pub open spec fn spec_cand_weight(
    direction: Direction,
    ws: Seq<WindowInfo>,
    fi: int,
    j: int,
    diag4: int,
) -> int {
    spec_weight_scaled(
        direction,
        ws[j].rect.spec_center2_x() - ws[fi].rect.spec_center2_x(),
        ws[j].rect.spec_center2_y() - ws[fi].rect.spec_center2_y(),
        diag4,
    )
}

/// Picks the window to focus for a switch in `direction`: nothing when
/// there are no eligible windows; the first eligible window when the
/// foreground window is not among them; otherwise the candidate with
/// the lowest weight, earlier candidates winning ties, where every
/// window whose handle differs from the focused one's is a candidate.
pub fn switch_to(
    direction: Direction,
    windows: &Vec<WindowInfo>,
    bounds: &ScreenBounds,
    foreground: Option<u64>,
) -> (r: Option<usize>)
    requires
        0 <= bounds.diagonal_square <= 0x4_0000_0000_0000_0000,
    ensures
        windows@.len() == 0 ==> r is None,
        windows@.len() > 0 && spec_focused_index(windows@, foreground) is None ==> r == Some(0usize),
        spec_focused_index(windows@, foreground) matches Some(fi) ==> match r {
            Some(i) => {
                let diag4 = 4 * bounds.diagonal_square;
                &&& 0 <= i < windows@.len()
                &&& windows@[i as int].handle != windows@[fi].handle
                &&& forall|j: int|
                    0 <= j < i && windows@[j].handle != windows@[fi].handle
                        ==> #[trigger] spec_cand_weight(direction, windows@, fi, j, diag4 as int)
                        > spec_cand_weight(direction, windows@, fi, i as int, diag4 as int)
                &&& forall|j: int|
                    i < j < windows@.len() && windows@[j].handle != windows@[fi].handle
                        ==> #[trigger] spec_cand_weight(direction, windows@, fi, j, diag4 as int)
                        >= spec_cand_weight(direction, windows@, fi, i as int, diag4 as int)
            },
            None => forall|j: int|
                0 <= j < windows@.len() ==> windows@[j].handle == windows@[fi].handle,
        },
{
    if windows.len() == 0 {
        return None;
    }
    let f = match select_focused(windows, foreground) {
        None => {
            return Some(0);
        },
        Some(f) => f,
    };
    proof {
        lemma_focused_index_characterization(windows@, foreground);
    }
    let focused_handle = windows[f].handle;
    let (fx2, fy2) = rect_center(windows[f].rect);
    let diag4: i128 = 4 * bounds.diagonal_square;
    let n: usize = windows.len();
    let mut best: Option<usize> = None;
    let mut best_weight: i128 = 0;
    let mut j: usize = 0;
    while j < n
        invariant
            n == windows@.len(),
            0 <= j <= n,
            0 <= f < n,
            focused_handle == windows@[f as int].handle,
            spec_focused_index(windows@, foreground) == Some(f as int),
            fx2 == windows@[f as int].rect.spec_center2_x(),
            fy2 == windows@[f as int].rect.spec_center2_y(),
            diag4 == 4 * bounds.diagonal_square,
            0 <= diag4 <= 0x10_0000_0000_0000_0000,
            match best {
                Some(i) => {
                    &&& 0 <= i < j
                    &&& windows@[i as int].handle != focused_handle
                    &&& best_weight == spec_cand_weight(
                        direction,
                        windows@,
                        f as int,
                        i as int,
                        diag4 as int,
                    )
                    &&& forall|k: int|
                        0 <= k < i && windows@[k].handle != focused_handle
                            ==> #[trigger] spec_cand_weight(
                            direction,
                            windows@,
                            f as int,
                            k,
                            diag4 as int,
                        ) > best_weight
                    &&& forall|k: int|
                        i < k < j && windows@[k].handle != focused_handle
                            ==> #[trigger] spec_cand_weight(
                            direction,
                            windows@,
                            f as int,
                            k,
                            diag4 as int,
                        ) >= best_weight
                },
                None => forall|k: int| 0 <= k < j ==> windows@[k].handle == focused_handle,
            },
        decreases n - j,
    {
        let w = &windows[j];
        if w.handle != focused_handle {
            let (cx2, cy2) = rect_center(w.rect);
            let dx = cx2 - fx2;
            let dy = cy2 - fy2;
            let weight = weight_scaled(direction, dx, dy, diag4);
            proof {
                assert(weight == spec_cand_weight(
                    direction,
                    windows@,
                    f as int,
                    j as int,
                    diag4 as int,
                ));
            }
            let take = match best {
                None => true,
                Some(_) => weight < best_weight,
            };
            if take {
                best = Some(j);
                best_weight = weight;
            }
        }
        j = j + 1;
    }
    best
}

/// How a window title is matched against a query.
#[derive(Debug, Copy, Clone, PartialEq, Eq, Structural)]
pub enum TitleMatch {
    /// The title equals the query exactly.
    Exact,
    /// The title equals the query up to ASCII case.
    CaseFold,
    /// The Unicode-lowercase title contains the Unicode-lowercase query.
    LowerContains,
}

/// Whether a title satisfies a match kind against a query.
pub open spec fn spec_title_matches(kind: TitleMatch, t: Seq<char>, q: Seq<char>) -> bool {
    match kind {
        TitleMatch::Exact => t == q,
        TitleMatch::CaseFold => lower_seq(t) == lower_seq(q),
        TitleMatch::LowerContains => contains_seq(lower_of(t), lower_of(q)),
    }
}

/// The index of the first title satisfying the match kind, if any.
pub open spec fn spec_first_title(kind: TitleMatch, ts: Seq<Seq<char>>, q: Seq<char>) -> Option<
    int,
>
    decreases ts.len(),
{
    if ts.len() == 0 {
        None
    } else if spec_title_matches(kind, ts[0], q) {
        Some(0)
    } else {
        match spec_first_title(kind, ts.skip(1), q) {
            Some(i) => Some(i + 1),
            None => None,
        }
    }
}

proof fn lemma_first_title_characterization(kind: TitleMatch, ts: Seq<Seq<char>>, q: Seq<char>)
    ensures
        match spec_first_title(kind, ts, q) {
            Some(i) => 0 <= i < ts.len() && spec_title_matches(kind, ts[i], q) && forall|j: int|
                0 <= j < i ==> !spec_title_matches(kind, ts[j], q),
            None => forall|j: int| 0 <= j < ts.len() ==> !spec_title_matches(kind, ts[j], q),
        },
    decreases ts.len(),
{
    if ts.len() == 0 {
    } else if spec_title_matches(kind, ts[0], q) {
    } else {
        lemma_first_title_characterization(kind, ts.skip(1), q);
        assert(forall|j: int| 0 < j < ts.len() ==> ts.skip(1)[j - 1] == ts[j]);
    }
}

/// The views of a title list.
pub open spec fn titles_views(v: Seq<String>) -> Seq<Seq<char>> {
    v.map_values(|t: String| t@)
}

fn title_matches(kind: TitleMatch, t: &str, q: &str) -> (r: bool)
    ensures
        r == spec_title_matches(kind, t@, q@),
{
    match kind {
        TitleMatch::Exact => str_eq(t, q),
        TitleMatch::CaseFold => eq_ignore_case(t, q),
        TitleMatch::LowerContains => {
            let tl = lowercase(t);
            let ql = lowercase(q);
            str_contains(tl.as_str(), ql.as_str())
        },
    }
}

fn first_title_match(kind: TitleMatch, titles: &Vec<String>, q: &str) -> (r: Option<usize>)
    ensures
        match r {
            Some(i) => spec_first_title(kind, titles_views(titles@), q@) == Some(i as int),
            None => spec_first_title(kind, titles_views(titles@), q@) is None,
        },
{
    let ghost tv = titles_views(titles@);
    let n: usize = titles.len();
    let mut i: usize = 0;
    while i < n
        invariant
            n == titles@.len(),
            0 <= i <= n,
            tv == titles_views(titles@),
            tv.len() == n,
            forall|j: int| 0 <= j < i ==> !spec_title_matches(kind, tv[j], q@),
        decreases n - i,
    {
        proof {
            assert(tv[i as int] == titles@[i as int]@);
        }
        if title_matches(kind, titles[i].as_str(), q) {
            proof {
                lemma_first_title_characterization(kind, tv, q@);
                match spec_first_title(kind, tv, q@) {
                    Some(k) => {
                        if k < i {
                            assert(!spec_title_matches(kind, tv[k], q@));
                        }
                        if k > i {
                            assert(!spec_title_matches(kind, tv[i as int], q@));
                        }
                    },
                    None => {
                        assert(!spec_title_matches(kind, tv[i as int], q@));
                    },
                }
            }
            return Some(i);
        }
        i = i + 1;
    }
    proof {
        lemma_first_title_characterization(kind, tv, q@);
    }
    None
}

/// The window `switch_to_window` picks: the first exact title match,
/// else the first title that contains the query without regard to
/// case, else nothing.
pub open spec fn spec_switch_to_window(ts: Seq<Seq<char>>, q: Seq<char>) -> Option<int> {
    match spec_first_title(TitleMatch::Exact, ts, q) {
        Some(i) => Some(i),
        None => spec_first_title(TitleMatch::LowerContains, ts, q),
    }
}

/// Picks the window whose title matches `title`: the first exact match,
/// else the first whose lowercase title contains the lowercase query.
/// `titles` are the titles of the eligible windows, in enumeration
/// order.
pub fn switch_to_window(titles: &Vec<String>, title: &str) -> (r: Option<usize>)
    ensures
        match r {
            Some(i) => spec_switch_to_window(titles_views(titles@), title@) == Some(i as int),
            None => spec_switch_to_window(titles_views(titles@), title@) is None,
        },
{
    match first_title_match(TitleMatch::Exact, titles, title) {
        Some(i) => Some(i),
        None => first_title_match(TitleMatch::LowerContains, titles, title),
    }
}

/// The window `switch_to_window_or_open` picks: the first title equal
/// to the query up to ASCII case, else the first whose lowercase form
/// contains the lowercase query, else nothing.
pub open spec fn spec_switch_to_window_or_open(ts: Seq<Seq<char>>, q: Seq<char>) -> Option<int> {
    match spec_first_title(TitleMatch::CaseFold, ts, q) {
        Some(i) => Some(i),
        None => spec_first_title(TitleMatch::LowerContains, ts, q),
    }
}

/// Picks the window whose title matches `window_title`, first without
/// regard to ASCII case, then by lowercase containment. A `None` result
/// means no title matches and the caller launches the program instead.
pub fn switch_to_window_or_open(titles: &Vec<String>, window_title: &str) -> (r: Option<usize>)
    ensures
        match r {
            Some(i) => spec_switch_to_window_or_open(titles_views(titles@), window_title@) == Some(
                i as int,
            ),
            None => spec_switch_to_window_or_open(titles_views(titles@), window_title@) is None,
        },
{
    match first_title_match(TitleMatch::CaseFold, titles, window_title) {
        Some(i) => Some(i),
        None => first_title_match(TitleMatch::LowerContains, titles, window_title),
    }
}

} // verus!
