use oledshift::geometry::{MonitorRect, WindowSnapshot};
use oledshift::placement::{
    draw_offset, effective_bounds, offset_from_draw, is_eligible, is_excluded_class, is_representable,
    place_window, place_with_offsets, plan_moves, DisplacementBounds, Taskbar,
};

fn window(left: i32, top: i32, right: i32, bottom: i32) -> WindowSnapshot {
    WindowSnapshot {
        handle: 7,
        visible: true,
        maximized: false,
        snapped: false,
        excluded: false,
        placement: MonitorRect::new(left, top, right, bottom),
        monitor: MonitorRect::new(0, 0, 1920, 1080),
    }
}

#[test]
fn eligible_window_stays_within_bounds_of_its_start() {
    let win = window(100, 100, 900, 700);
    let bounds = DisplacementBounds::new(50, 50);
    let taskbar = Taskbar::new(false, 0);
    for _ in 0..2000 {
        let (x, y) = place_window(&win, &bounds, &taskbar).expect("eligible");
        assert!((50..=150).contains(&x));
        assert!((50..=150).contains(&y));
    }
}

#[test]
fn offsets_are_applied_exactly() {
    let win = window(100, 100, 900, 700);
    let taskbar = Taskbar::new(false, 0);
    assert_eq!(place_with_offsets(&win, &taskbar, 50, -50), Some((150, 50)));
    assert_eq!(place_with_offsets(&win, &taskbar, 0, 0), Some((100, 100)));
    assert_eq!(place_with_offsets(&win, &taskbar, -7, 13), Some((93, 113)));
}

#[test]
fn candidate_is_clamped_to_the_monitor() {
    let win = window(1100, 470, 1900, 1070);
    let taskbar = Taskbar::new(false, 0);
    assert_eq!(place_with_offsets(&win, &taskbar, 50, 50), Some((1120, 480)));
    let near_origin = window(10, 5, 810, 605);
    assert_eq!(place_with_offsets(&near_origin, &taskbar, -50, -50), Some((0, 0)));
}

#[test]
fn effective_bounds_are_the_smaller_of_bound_and_free_room() {
    let win = window(100, 100, 900, 700);
    assert_eq!(effective_bounds(&win, &DisplacementBounds::new(50, 50)), (50, 50));
    assert_eq!(effective_bounds(&win, &DisplacementBounds::new(5000, 5000)), (1120, 480));
    let full_width = window(0, 100, 1920, 700);
    assert_eq!(effective_bounds(&full_width, &DisplacementBounds::new(50, 50)), (0, 50));
    assert_eq!(effective_bounds(&win, &DisplacementBounds::new(-3, -4)), (0, 0));
}

#[test]
fn docked_taskbar_caps_the_bottom_edge() {
    let win = window(100, 400, 900, 1000);
    let taskbar = Taskbar::new(false, 40);
    assert_eq!(place_with_offsets(&win, &taskbar, 0, 50), Some((100, 440)));
    assert_eq!(place_with_offsets(&win, &taskbar, 0, -50), Some((100, 350)));
}

#[test]
fn hidden_taskbar_floors_the_top_edge() {
    let win = window(100, 20, 900, 620);
    let taskbar = Taskbar::new(true, 40);
    assert_eq!(place_with_offsets(&win, &taskbar, 0, -20), Some((100, 40)));
    assert_eq!(place_with_offsets(&win, &taskbar, 0, 50), Some((100, 70)));
}

#[test]
fn tall_window_with_hidden_taskbar_leaves_the_monitor() {
    let win = window(100, 0, 900, 1060);
    let taskbar = Taskbar::new(true, 40);
    assert_eq!(place_with_offsets(&win, &taskbar, 0, 0), Some((100, 40)));
}

#[test]
fn ineligible_windows_are_left_alone() {
    let bounds = DisplacementBounds::new(50, 50);
    let taskbar = Taskbar::new(false, 40);
    let base = window(100, 100, 900, 700);
    let hidden = WindowSnapshot { visible: false, ..base };
    let maximized = WindowSnapshot { maximized: true, ..base };
    let snapped = WindowSnapshot { snapped: true, ..base };
    let excluded = WindowSnapshot { excluded: true, ..base };
    let too_wide = window(0, 0, 1921, 600);
    let too_tall = window(0, 0, 800, 1081);
    for win in [hidden, maximized, snapped, excluded, too_wide, too_tall] {
        assert!(!is_eligible(&win));
        for _ in 0..100 {
            assert_eq!(place_window(&win, &bounds, &taskbar), None);
        }
        assert_eq!(place_with_offsets(&win, &taskbar, 3, 4), None);
    }
    assert!(is_eligible(&base));
    assert!(is_eligible(&window(0, 0, 1920, 1080)));
}

#[test]
fn every_offset_of_the_range_is_drawn() {
    let mut seen = [false; 7];
    for _ in 0..5000 {
        let d = draw_offset(3);
        assert!((-3..=3).contains(&d));
        seen[(d + 3) as usize] = true;
    }
    assert!(seen.iter().all(|s| *s));
    for _ in 0..50 {
        assert_eq!(draw_offset(0), 0);
    }
}

#[test]
fn draws_are_spread_over_the_whole_range() {
    let trials = 21000;
    let mut counts = [0u32; 21];
    for _ in 0..trials {
        counts[(draw_offset(10) + 10) as usize] += 1;
    }
    for c in counts {
        assert!(c > 700 && c < 1300, "count {} is far from 1000", c);
    }
}

#[test]
fn largest_bound_does_not_overflow() {
    for _ in 0..100 {
        let d = draw_offset(i32::MAX);
        assert!(d >= -i32::MAX);
    }
}

#[test]
fn plan_covers_every_window() {
    let bounds = DisplacementBounds::new(50, 50);
    let taskbar = Taskbar::new(false, 40);
    let base = window(100, 100, 900, 700);
    let windows = vec![
        base,
        WindowSnapshot { maximized: true, ..base },
        window(500, 300, 700, 400),
        WindowSnapshot { placement: MonitorRect::new(900, 100, 100, 700), ..base },
    ];
    let plan = plan_moves(&windows, &bounds, &taskbar);
    assert_eq!(plan.len(), 4);
    let (x, y) = plan[0].expect("first window moves");
    assert!((50..=150).contains(&x) && (50..=150).contains(&y));
    assert_eq!(plan[1], None);
    let (x, y) = plan[2].expect("third window moves");
    assert!((450..=550).contains(&x) && (250..=350).contains(&y));
    assert_eq!(plan[3], None);
    assert_eq!(plan_moves(&Vec::new(), &bounds, &taskbar), Vec::new());
}

#[test]
fn representable_rules_out_overflowing_positions() {
    let base = window(100, 100, 900, 700);
    assert!(is_representable(&base, &Taskbar::new(true, 40)));
    assert!(is_representable(&base, &Taskbar::new(false, 40)));
    let inverted = WindowSnapshot { placement: MonitorRect::new(900, 100, 100, 700), ..base };
    assert!(!is_representable(&inverted, &Taskbar::new(false, 40)));
    let high = WindowSnapshot { monitor: MonitorRect::new(0, i32::MAX - 10, 1920, i32::MAX), ..base };
    assert!(!is_representable(&high, &Taskbar::new(true, 40)));
    let low = WindowSnapshot { monitor: MonitorRect::new(0, i32::MIN, 1920, i32::MIN + 600), ..base };
    assert!(!is_representable(&low, &Taskbar::new(false, 40)));
}

#[test]
fn exclusion_list_names_three_classes() {
    assert!(is_excluded_class("#32768"));
    assert!(is_excluded_class("NarratorHelperWindow"));
    assert!(is_excluded_class("TopLevelWindowForOverflowXamlIsland"));
    assert!(!is_excluded_class(""));
    assert!(!is_excluded_class("Notepad"));
    assert!(!is_excluded_class("narratorhelperwindow"));
}

#[test]
fn rectangle_extents() {
    let r = MonitorRect::new(-1920, 0, 0, 1080);
    assert_eq!(r.width(), 1920);
    assert_eq!(r.height(), 1080);
    assert_eq!(r.size(), Some((1920, 1080)));
    assert!(r.is_well_formed());
    let wide = MonitorRect::new(i32::MIN, 0, i32::MAX, 1);
    assert_eq!(wide.width(), 4294967295);
    assert_eq!(wide.size(), None);
    assert!(!MonitorRect::new(5, 0, 4, 1).is_well_formed());
}

#[test]
fn draws_map_onto_offsets_one_to_one() {
    assert_eq!(offset_from_draw(3, 0), -3);
    assert_eq!(offset_from_draw(3, 3), 0);
    assert_eq!(offset_from_draw(3, 6), 3);
    assert_eq!(offset_from_draw(0, 0), 0);
    assert_eq!(offset_from_draw(50, 17), -33);
    assert_eq!(offset_from_draw(i32::MAX, 0), -i32::MAX);
    assert_eq!(offset_from_draw(i32::MAX, 2 * (i32::MAX as i64)), i32::MAX);
    let offsets: Vec<i32> = (0..11).map(|r| offset_from_draw(5, r)).collect();
    assert_eq!(offsets, (-5..=5).collect::<Vec<i32>>());
}
