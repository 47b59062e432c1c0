//! Tests of the window selector: screen bounds, eligibility, the
//! directional scoring, title matching, and the text helpers they rest
//! on.

use fncaps::state::Direction;
use fncaps::text::{
    eq_ignore_case, find_char_str, lower_string, replace_char_str, str_contains, str_eq, trim_str,
    usize_string,
};
use fncaps::windows_ops::{
    angle_mdeg, enumerate_valid_windows, is_valid_window, rect_center, rect_height, rect_width,
    select_focused, switch_to, switch_to_window, switch_to_window_or_open, update_screen_size,
    weight_scaled, Rect, ScreenBounds, WindowInfo, WindowProbe,
};

fn rect(left: i32, top: i32, right: i32, bottom: i32) -> Rect {
    Rect { left, top, right, bottom }
}

fn test_bounds() -> ScreenBounds {
    ScreenBounds {
        start_x: -1000,
        start_y: -1000,
        end_x: 1000,
        end_y: 1000,
        total_width: 2000,
        total_height: 2000,
        diagonal_square: 8_000_000,
    }
}

fn probe(handle: u64, r: Rect) -> WindowProbe {
    WindowProbe {
        handle,
        rect: r,
        visible: true,
        title: format!("window {handle}"),
        pid: 4242,
        maximized: false,
        center_root: Some(handle),
        root: handle,
    }
}

#[test]
fn screen_bounds_union_of_monitors() {
    let monitors = vec![rect(0, 0, 1920, 1080), rect(1920, -120, 3840, 1080)];
    let bounds = update_screen_size(&monitors).unwrap();
    assert_eq!(bounds.start_x, 0);
    assert_eq!(bounds.start_y, -120);
    assert_eq!(bounds.end_x, 3840);
    assert_eq!(bounds.end_y, 1080);
    assert_eq!(bounds.total_width, 3840);
    assert_eq!(bounds.total_height, 1200);
    assert_eq!(bounds.diagonal_square, 3840 * 3840 + 1200 * 1200);
}

#[test]
fn no_monitors_means_no_bounds() {
    assert!(update_screen_size(&Vec::new()).is_none());
}

#[test]
fn rect_helpers() {
    let r = rect(10, 20, 110, 70);
    assert_eq!(rect_width(r), 100);
    assert_eq!(rect_height(r), 50);
    // Centers are reported in doubled coordinates.
    assert_eq!(rect_center(r), (120, 90));
}

#[test]
fn eligibility_requires_every_condition() {
    let bounds = test_bounds();
    let good = probe(1, rect(-50, -50, 50, 50));
    assert_eq!(
        is_valid_window(&good, &bounds, 1),
        Some(WindowInfo { handle: 1, rect: rect(-50, -50, 50, 50) })
    );

    let mut invisible = good.clone();
    invisible.visible = false;
    assert!(is_valid_window(&invisible, &bounds, 1).is_none());

    let mut untitled = good.clone();
    untitled.title = String::new();
    assert!(is_valid_window(&untitled, &bounds, 1).is_none());

    // A window of the calling process is never a switch target.
    assert!(is_valid_window(&good, &bounds, 4242).is_none());

    let mut obscured = good.clone();
    obscured.center_root = Some(999);
    assert!(is_valid_window(&obscured, &bounds, 1).is_none());

    let mut unprobed = good.clone();
    unprobed.center_root = None;
    assert!(is_valid_window(&unprobed, &bounds, 1).is_none());

    // A sliver below the minimum size is rejected...
    let sliver = probe(2, rect(0, 0, 20, 400));
    assert!(is_valid_window(&sliver, &bounds, 1).is_none());
    // ...unless the window is maximized.
    let mut maximized_sliver = sliver.clone();
    maximized_sliver.maximized = true;
    assert!(is_valid_window(&maximized_sliver, &bounds, 1).is_some());

    // A window larger than the whole screen is rejected.
    let huge = probe(3, rect(-1500, -1500, 1500, 1500));
    assert!(is_valid_window(&huge, &bounds, 1).is_none());
}

#[test]
fn fully_offscreen_window_is_never_eligible() {
    let bounds = test_bounds();
    // Fully outside the virtual screen: rejected even when visible,
    // titled and maximized.
    let mut phantom = probe(9, rect(5000, 5000, 5400, 5400));
    phantom.maximized = true;
    assert!(is_valid_window(&phantom, &bounds, 1).is_none());
    let mut far_left = probe(10, rect(-9000, 0, -8000, 500));
    far_left.maximized = true;
    assert!(is_valid_window(&far_left, &bounds, 1).is_none());
}

#[test]
fn enumeration_keeps_order_and_drops_ineligible() {
    let bounds = test_bounds();
    let mut hidden = probe(2, rect(0, 0, 200, 200));
    hidden.visible = false;
    let probes = vec![
        probe(1, rect(-400, -400, -100, -100)),
        hidden,
        probe(3, rect(100, 100, 400, 400)),
    ];
    let windows = enumerate_valid_windows(&probes, &bounds, 7);
    assert_eq!(windows.len(), 2);
    assert_eq!(windows[0].handle, 1);
    assert_eq!(windows[1].handle, 3);
}

#[test]
fn select_focused_finds_the_foreground_window() {
    let ws = vec![
        WindowInfo { handle: 5, rect: rect(0, 0, 10, 10) },
        WindowInfo { handle: 6, rect: rect(0, 0, 10, 10) },
        WindowInfo { handle: 7, rect: rect(0, 0, 10, 10) },
    ];
    assert_eq!(select_focused(&ws, Some(6)), Some(1));
    assert_eq!(select_focused(&ws, Some(9)), None);
    assert_eq!(select_focused(&ws, None), None);
}

#[test]
fn angle_is_exact_on_the_axes_and_diagonals() {
    assert_eq!(angle_mdeg(0, 0), 0);
    assert_eq!(angle_mdeg(3, 0), 0);
    assert_eq!(angle_mdeg(-7, 0), 180_000);
    assert_eq!(angle_mdeg(0, 5), 90_000);
    assert_eq!(angle_mdeg(0, -5), -90_000);
    assert_eq!(angle_mdeg(100, 100), 45_000);
    assert_eq!(angle_mdeg(100, -100), -45_000);
    assert_eq!(angle_mdeg(-100, 100), 135_000);
    assert_eq!(angle_mdeg(-100, -100), -135_000);
}

#[test]
fn angle_approximation_value() {
    // atan(50 / 100) through the fixed-point approximation:
    // (45000·50·100 + 15640·50·50) / 100² = 26410 millidegrees,
    // within a quarter degree of the true 26565.
    assert_eq!(angle_mdeg(100, 50), 26_410);
    assert_eq!(angle_mdeg(50, 100), 90_000 - 26_410);
}

#[test]
fn weight_formula_exact_values() {
    // Straight east with the target east: only the distance term.
    // 540000 · (200² + 0²) = 21 600 000 000.
    assert_eq!(weight_scaled(Direction::Right, 200, 0, 32_000_000), 21_600_000_000);
    // North candidate scored for Up matches the angle exactly too.
    assert_eq!(weight_scaled(Direction::Up, 0, -200, 32_000_000), 21_600_000_000);
    // Degenerate diagonal: only the angle term, 2 · adiff.
    // Angle of (0, 200) is 90°, target Up is -90°: adiff 180°.
    assert_eq!(weight_scaled(Direction::Up, 0, 200, 0), 360_000);
    assert_eq!(weight_scaled(Direction::Right, 200, 0, 0), 0);
}

fn compass_windows() -> Vec<WindowInfo> {
    vec![
        // Focused window centered at the origin.
        WindowInfo { handle: 1, rect: rect(-50, -50, 50, 50) },
        // East, north and west candidates at distance 100.
        WindowInfo { handle: 2, rect: rect(50, -50, 150, 50) },
        WindowInfo { handle: 3, rect: rect(-50, -150, 50, -50) },
        WindowInfo { handle: 4, rect: rect(-150, -50, -50, 50) },
    ]
}

#[test]
fn compass_selection_right_picks_east_up_picks_north() {
    let bounds = test_bounds();
    let ws = compass_windows();
    assert_eq!(switch_to(Direction::Right, &ws, &bounds, Some(1)), Some(1));
    assert_eq!(switch_to(Direction::Up, &ws, &bounds, Some(1)), Some(2));
    assert_eq!(switch_to(Direction::Left, &ws, &bounds, Some(1)), Some(3));
}

#[test]
fn mirrored_ranking_swaps_left_and_right() {
    let bounds = test_bounds();
    let ws = compass_windows();
    // Mirror every rectangle about the y axis.
    let mirrored: Vec<WindowInfo> = ws
        .iter()
        .map(|w| WindowInfo {
            handle: w.handle,
            rect: rect(-w.rect.right, w.rect.top, -w.rect.left, w.rect.bottom),
        })
        .collect();
    for (dir, mirror_dir) in [
        (Direction::Right, Direction::Left),
        (Direction::Left, Direction::Right),
        (Direction::Up, Direction::Up),
        (Direction::Down, Direction::Down),
    ] {
        assert_eq!(
            switch_to(dir, &ws, &bounds, Some(1)),
            switch_to(mirror_dir, &mirrored, &bounds, Some(1)),
            "mirror mismatch for {dir:?}"
        );
    }
}

#[test]
fn selection_without_focused_window_picks_the_first() {
    let bounds = test_bounds();
    let ws = compass_windows();
    assert_eq!(switch_to(Direction::Right, &ws, &bounds, Some(99)), Some(0));
    assert_eq!(switch_to(Direction::Right, &ws, &bounds, None), Some(0));
}

#[test]
fn selection_edge_cases() {
    let bounds = test_bounds();
    assert_eq!(switch_to(Direction::Right, &Vec::new(), &bounds, Some(1)), None);
    // Only the focused window itself: nothing to switch to.
    let only = vec![WindowInfo { handle: 1, rect: rect(-50, -50, 50, 50) }];
    assert_eq!(switch_to(Direction::Right, &only, &bounds, Some(1)), None);
}

#[test]
fn nearer_candidate_wins_against_the_angle() {
    // Distance dominates: a slightly off-axis near window beats a far
    // on-axis one.
    let bounds = test_bounds();
    let ws = vec![
        WindowInfo { handle: 1, rect: rect(-50, -50, 50, 50) },
        // Far east, perfectly on axis, real center (800, 0).
        WindowInfo { handle: 2, rect: rect(750, -50, 850, 50) },
        // Near east, slightly north, real center (100, -30).
        WindowInfo { handle: 3, rect: rect(50, -80, 150, 20) },
    ];
    assert_eq!(switch_to(Direction::Right, &ws, &bounds, Some(1)), Some(2));
}

#[test]
fn ties_keep_the_first_candidate() {
    let bounds = test_bounds();
    // Two identical east candidates: the earlier index wins.
    let ws = vec![
        WindowInfo { handle: 1, rect: rect(-50, -50, 50, 50) },
        WindowInfo { handle: 2, rect: rect(50, -50, 150, 50) },
        WindowInfo { handle: 3, rect: rect(50, -50, 150, 50) },
    ];
    assert_eq!(switch_to(Direction::Right, &ws, &bounds, Some(1)), Some(1));
}

#[test]
fn title_switch_prefers_exact_over_containment() {
    let titles: Vec<String> = ["xEditor", "Editor", "Editor"]
        .iter()
        .map(|s| s.to_string())
        .collect();
    assert_eq!(switch_to_window(&titles, "Editor"), Some(1));
    let titles: Vec<String> = ["Notepad", "My Editor", "editor"]
        .iter()
        .map(|s| s.to_string())
        .collect();
    assert_eq!(switch_to_window(&titles, "Editor"), Some(1));
    // The fallback tier ignores case: a query differing only in case
    // still matches by containment.
    assert_eq!(switch_to_window(&titles, "NOTEPAD"), Some(0));
    assert_eq!(switch_to_window(&titles, "EDITOR"), Some(1));
    // Nothing matches either tier.
    assert_eq!(switch_to_window(&titles, "Terminal"), None);
}

#[test]
fn title_switch_or_open_matches_without_case() {
    let titles: Vec<String> = ["CODE", "other"].iter().map(|s| s.to_string()).collect();
    assert_eq!(switch_to_window_or_open(&titles, "code"), Some(0));
    // Lowercase containment: only works because both sides are folded.
    let titles: Vec<String> = ["MY CODE", "other"].iter().map(|s| s.to_string()).collect();
    assert_eq!(switch_to_window_or_open(&titles, "Code"), Some(0));
    // No match at all: the caller launches the program.
    let titles: Vec<String> = vec!["alpha".to_string()];
    assert_eq!(switch_to_window_or_open(&titles, "beta"), None);
}

#[test]
fn text_helpers() {
    assert!(str_contains("hello", "ell"));
    assert!(str_contains("abc", ""));
    assert!(!str_contains("", "x"));
    assert!(!str_contains("abc", "abcd"));
    assert!(str_eq("abc", "abc"));
    assert!(!str_eq("abc", "abd"));
    assert!(eq_ignore_case("AbC", "aBc"));
    assert!(!eq_ignore_case("abc", "abd"));
    assert_eq!(trim_str("  x y\t"), "x y");
    assert_eq!(trim_str("   "), "");
    assert_eq!(lower_string("MiXed 123"), "mixed 123");
    assert_eq!(replace_char_str("a|b|c", '|', ':'), "a:b:c");
    assert_eq!(find_char_str("abc", 'b'), Some(1));
    assert_eq!(find_char_str("abc", 'z'), None);
    assert_eq!(usize_string(0), "0");
    assert_eq!(usize_string(1234), "1234");
}
