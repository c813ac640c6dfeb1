use doxa_selector::controller::{has_interaction, ControllerSnapshot};
use doxa_selector::touch::{
    convert_touch_event, EventPhase, PointerEvent, TouchEvent, TouchFilter, TouchPhase, TouchPoint,
};

fn pt(x: i32, y: i32) -> TouchPoint {
    TouchPoint { x, y }
}

#[test]
fn press_passes_raw_and_resets() {
    let mut f = TouchFilter::new();
    assert_eq!(
        f.sample(pt(10, 20), TouchPhase::Pressed),
        Some(TouchEvent { location: pt(10, 20), phase: EventPhase::Started })
    );
    assert_eq!(f.filtered, Some(pt(10, 20)));
    f.sample(pt(200, 200), TouchPhase::Held);
    f.sample(pt(50, 60), TouchPhase::Pressed);
    assert_eq!(f.filtered, Some(pt(50, 60)));
}

#[test]
fn held_blends_a_quarter_of_the_way() {
    let mut f = TouchFilter::new();
    f.sample(pt(100, 100), TouchPhase::Pressed);
    assert_eq!(
        f.sample(pt(80, 120), TouchPhase::Held),
        Some(TouchEvent { location: pt(95, 105), phase: EventPhase::Moved })
    );
    assert_eq!(f.sample(pt(80, 120), TouchPhase::Held).unwrap().location, pt(91, 109));
}

#[test]
fn held_without_previous_passes_raw() {
    let mut f = TouchFilter::new();
    assert_eq!(
        f.sample(pt(7, 8), TouchPhase::Held),
        Some(TouchEvent { location: pt(7, 8), phase: EventPhase::Moved })
    );
}

#[test]
fn held_converges_monotonically() {
    let raw = pt(80, 120);
    let mut f = TouchFilter::new();
    f.sample(pt(100, 100), TouchPhase::Pressed);
    let mut last = (20, 20);
    for _ in 0..20 {
        let p = f.sample(raw, TouchPhase::Held).unwrap().location;
        let d = ((p.x - raw.x).abs(), (p.y - raw.y).abs());
        assert!(d.0 <= last.0 && d.1 <= last.1);
        last = d;
    }
    assert_eq!(f.filtered, Some(raw));
}

#[test]
fn release_emits_once() {
    let mut f = TouchFilter::new();
    assert_eq!(f.sample(pt(1, 1), TouchPhase::Released), None);
    f.sample(pt(5, 5), TouchPhase::Pressed);
    assert_eq!(
        f.sample(pt(6, 6), TouchPhase::Released),
        Some(TouchEvent { location: pt(6, 6), phase: EventPhase::Ended })
    );
    assert_eq!(f.filtered, None);
    assert_eq!(f.sample(pt(6, 6), TouchPhase::Released), None);
}

#[test]
fn filter_handles_extreme_coordinates() {
    let mut f = TouchFilter::new();
    f.sample(pt(i32::MIN, i32::MAX), TouchPhase::Pressed);
    let p = f.sample(pt(i32::MAX, i32::MIN), TouchPhase::Held).unwrap().location;
    assert!(p.x > i32::MIN && p.y < i32::MAX);
}

#[test]
fn pointer_events_track_press() {
    let mut pressed = false;
    assert_eq!(convert_touch_event(pt(1, 2), TouchPhase::Pressed, &mut pressed), PointerEvent::Pressed(pt(1, 2)));
    assert!(pressed);
    assert_eq!(convert_touch_event(pt(3, 4), TouchPhase::Pressed, &mut pressed), PointerEvent::Moved(pt(3, 4)));
    assert_eq!(convert_touch_event(pt(5, 6), TouchPhase::Held, &mut pressed), PointerEvent::Moved(pt(5, 6)));
    assert_eq!(convert_touch_event(pt(7, 8), TouchPhase::Released, &mut pressed), PointerEvent::Released(pt(7, 8)));
    assert!(!pressed);
}

fn idle() -> ControllerSnapshot {
    ControllerSnapshot {
        button_a: false,
        button_b: false,
        button_x: false,
        button_y: false,
        button_up: false,
        button_down: false,
        button_left: false,
        button_right: false,
        button_l1: false,
        button_l2: false,
        button_r1: false,
        button_r2: false,
        left_x: 0,
        left_y: 0,
        right_x: 0,
        right_y: 0,
    }
}

#[test]
fn idle_controller_has_no_interaction() {
    assert!(!has_interaction(&idle()));
    let mut s = idle();
    s.left_x = 6;
    s.left_y = -6;
    s.right_x = 6;
    s.right_y = -6;
    assert!(!has_interaction(&s));
}

#[test]
fn stick_beyond_deadzone_is_interaction() {
    let mut s = idle();
    s.right_y = -7;
    assert!(has_interaction(&s));
    let mut s = idle();
    s.left_x = 7;
    assert!(has_interaction(&s));
}

#[test]
fn button_is_interaction() {
    let mut s = idle();
    s.button_r2 = true;
    assert!(has_interaction(&s));
}
