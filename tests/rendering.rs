use doxa_selector::animation::TreePair;
use doxa_selector::framebuffer::{draw_plan, full_screen, region_area, Rect, Rgb};
use doxa_selector::pacing::{
    diagnostics_refresh_due, sleep_time, CompetitionMode, FramePacer, RenderKind, FRAME_BUDGET_US,
    MIN_FRAME_GAP_US,
};
use doxa_selector::screen::{Page, Screen, SelectionStore};
use doxa_selector::view_model::{
    bottom_bar, diagnostics_layout, selector, selector_scroll_bar, DiagnosticsControl,
    DiagnosticsSnapshot, SelectorRow,
};

#[test]
fn sleep_fills_the_frame() {
    assert_eq!(FRAME_BUDGET_US, 33_333);
    assert_eq!(sleep_time(0), 33_333);
    assert_eq!(sleep_time(10_000), 23_333);
    assert_eq!(sleep_time(28_333), 5_000);
}

#[test]
fn sleep_never_below_gap() {
    assert_eq!(sleep_time(30_000), MIN_FRAME_GAP_US);
    assert_eq!(sleep_time(50_000), MIN_FRAME_GAP_US);
    assert_eq!(sleep_time(u64::MAX), MIN_FRAME_GAP_US);
    for e in 0..FRAME_BUDGET_US {
        let s = sleep_time(e);
        assert!(s >= MIN_FRAME_GAP_US);
        assert!(s <= (FRAME_BUDGET_US - e).max(MIN_FRAME_GAP_US));
    }
}

#[test]
fn rendering_suspends_after_inactivity() {
    let mut p = FramePacer::new(0, CompetitionMode::Disabled);
    assert_eq!(p.render_kind(CompetitionMode::Disabled), RenderKind::Animated);
    p.after_frame(CompetitionMode::Disabled, 999_999);
    assert!(p.should_render);
    p.after_frame(CompetitionMode::Disabled, 1_000_000);
    assert!(!p.should_render);
    assert_eq!(p.render_kind(CompetitionMode::Disabled), RenderKind::Skip);
    p.on_event(CompetitionMode::Disabled, 2_000_000, false);
    assert!(p.should_render);
    assert_eq!(p.last_activity_us, 2_000_000);
}

#[test]
fn autonomous_renders_only_on_change() {
    let mut p = FramePacer::new(0, CompetitionMode::Disabled);
    assert!(p.enter_mode(CompetitionMode::Autonomous));
    assert!(!p.enter_mode(CompetitionMode::Autonomous));
    assert_eq!(p.render_kind(CompetitionMode::Autonomous), RenderKind::Static);
    p.after_frame(CompetitionMode::Autonomous, 10);
    assert!(!p.should_render);
    p.on_event(CompetitionMode::Autonomous, 20, false);
    assert!(!p.should_render);
    p.on_event(CompetitionMode::Autonomous, 30, true);
    assert!(p.should_render);
    assert!(!p.enter_mode(CompetitionMode::Driver));
}

#[test]
fn diagnostics_refresh_every_second() {
    assert!(!diagnostics_refresh_due(5_000_000, 5_999_999));
    assert!(diagnostics_refresh_due(5_000_000, 6_000_000));
    assert!(!diagnostics_refresh_due(5_000_000, 1_000));
}

#[test]
fn rgb_packing() {
    let c = Rgb { r: 0x12, g: 0x34, b: 0x56 };
    assert_eq!(c.into_raw(), 0x0012_3456);
    assert_eq!(Rgb::from_raw(0xff12_3456), c);
    assert_eq!(Rgb::from_raw(c.into_raw()), c);
}

#[test]
fn draw_plan_shifts_below_header() {
    let region = Rect { start_x: 2, start_y: 3, end_x: 4, end_y: 4 };
    let buf = vec![Rgb { r: 1, g: 0, b: 0 }, Rgb { r: 0, g: 0, b: 2 }];
    let plan = draw_plan(region, &buf);
    assert_eq!((plan.x0, plan.y0, plan.x1, plan.y1, plan.stride), (2, 35, 4, 36, 2));
    assert_eq!(plan.pixels, vec![0x01_0000, 0x02]);
}

#[test]
fn region_area_counts_pixels() {
    assert_eq!(region_area(Rect { start_x: 0, start_y: 0, end_x: 2, end_y: 2 }), Some(4));
    assert_eq!(region_area(Rect { start_x: 1, start_y: 5, end_x: 4, end_y: 5 }), Some(0));
    assert_eq!(region_area(Rect { start_x: 3, start_y: 0, end_x: 2, end_y: 2 }), None);
    assert_eq!(region_area(Rect { start_x: 0, start_y: 3, end_x: 2, end_y: 2 }), None);
    assert_eq!(region_area(full_screen()), Some(480 * 240));
}

#[test]
fn full_screen_plan() {
    let buf = vec![Rgb { r: 0, g: 0, b: 0 }; 480 * 240];
    let plan = draw_plan(full_screen(), &buf);
    assert_eq!((plan.y0, plan.y1, plan.stride), (32, 272, 480));
    assert_eq!(plan.pixels.len(), 480 * 240);
}

#[test]
fn selector_rows_pair_items() {
    assert_eq!(
        selector(3),
        vec![SelectorRow { left: 0, right: Some(1) }, SelectorRow { left: 2, right: None }]
    );
    assert_eq!(selector(4).len(), 2);
    assert_eq!(selector(4)[1], SelectorRow { left: 2, right: Some(3) });
    assert!(selector(0).is_empty());
    assert!(!selector_scroll_bar(4));
    assert!(selector_scroll_bar(5));
}

#[test]
fn bottom_bar_controls() {
    let store = SelectionStore {
        selected_route: None,
        calibrating: false,
        show_calibration_ui: true,
        show_diagnostics_ui: true,
    };
    let b = bottom_bar(Screen::Confirmed, store);
    assert!(b.change_route && b.calibrate);
    assert_eq!(b.diagnostics, Some(DiagnosticsControl::Open));
    let b = bottom_bar(Screen::Diagnostics(Page::Confirmed), store);
    assert!(!b.change_route);
    assert_eq!(b.diagnostics, Some(DiagnosticsControl::Exit));
}

#[test]
fn diagnostics_snapshot_limit() {
    let entries: Vec<(String, String)> = (0..16).map(|i| (format!("k{}", i), format!("v{}", i))).collect();
    let s = DiagnosticsSnapshot::new(entries);
    assert_eq!(s.len(), 16);
    assert_eq!(s.entry(3), &(String::from("k3"), String::from("v3")));
    assert_eq!(DiagnosticsSnapshot::new(Vec::new()).len(), 0);
}

#[test]
fn diagnostics_layout_rules() {
    assert!(diagnostics_layout(6, true).scroll_bar);
    assert!(!diagnostics_layout(5, true).scroll_bar);
    assert!(diagnostics_layout(4, false).scroll_bar);
    assert_eq!(diagnostics_layout(0, false).padding, 8);
    assert_eq!(diagnostics_layout(0, true).corner_radius, 8);
}

#[test]
fn tree_pair_swaps_roles() {
    let mut p = TreePair::new(String::from("a"), String::from("b"));
    assert_eq!((p.source().as_str(), p.target().as_str()), ("a", "b"));
    {
        let (s, t) = p.parts_mut();
        t.push_str(s);
    }
    assert_eq!(p.target(), "ba");
    p.swap();
    assert_eq!((p.source().as_str(), p.target().as_str()), ("ba", "a"));
    p.set_target(String::from("c"));
    assert_eq!((p.source().as_str(), p.target().as_str()), ("ba", "c"));
    assert_eq!(p.generation(), 1);
}

#[test]
fn operator_input_stops_rendering_in_driver_control() {
    let mut p = FramePacer::new(0, CompetitionMode::Driver);
    p.on_operator_input(CompetitionMode::Disabled);
    assert!(p.should_render);
    p.on_operator_input(CompetitionMode::Driver);
    assert!(!p.should_render);
    p.on_event(CompetitionMode::Driver, 5, false);
    assert!(p.should_render);
}
