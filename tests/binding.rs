use cozy_ui::colors::{BACKGROUND, HIGHLIGHT, PURPLE, WIDGET_BACKGROUND};
use cozy_ui::util::get_set::Operation;
use cozy_ui::widgets;
use cozy_ui::widgets::{slider_gesture, GestureStep};

#[test]
fn none_becomes_get() {
    let op: Operation<u8> = Operation::from(None);
    assert!(matches!(op, Operation::Get));
}

#[test]
fn some_becomes_put() {
    let op: Operation<u8> = Some(3).into();
    assert!(matches!(op, Operation::Put(3)));
}

#[test]
fn get_and_set_go_through_the_binding() {
    let mut stored: u32 = 5;
    let mut requests: Vec<Option<u32>> = Vec::new();
    let mut binding = |op: Operation<u32>| match op {
        Operation::Get => {
            requests.push(None);
            stored
        }
        Operation::Put(v) => {
            requests.push(Some(v));
            stored = v;
            v
        }
    };
    assert_eq!(widgets::get(&mut binding), 5);
    widgets::set(&mut binding, 9);
    assert_eq!(widgets::get(&mut binding), 9);
    drop(binding);
    assert_eq!(stored, 9);
    assert_eq!(requests, vec![None, Some(9), None]);
}

#[test]
fn theme_colors() {
    assert_eq!(BACKGROUND, (69, 65, 73));
    assert_eq!(WIDGET_BACKGROUND, (75, 54, 78));
    assert_eq!(HIGHLIGHT, (255, 45, 128));
    assert_eq!(PURPLE, (118, 72, 151));
}

#[test]
fn slider_gesture_opens_once_and_closes_on_release() {
    let first = slider_gesture(false, true, false);
    assert_eq!(first, GestureStep { begin: true, end: false, open: true });
    let held = slider_gesture(first.open, true, false);
    assert_eq!(held, GestureStep { begin: false, end: false, open: true });
    let released = slider_gesture(held.open, false, true);
    assert_eq!(released, GestureStep { begin: false, end: true, open: false });
    let idle = slider_gesture(released.open, false, true);
    assert_eq!(idle, GestureStep { begin: false, end: false, open: false });
    let click = slider_gesture(false, true, true);
    assert_eq!(click, GestureStep { begin: true, end: true, open: false });
}
