use gt911_touch::gt911::{Dimension, Orientation, TouchPoint, TouchState, GT911};

fn record(x: u16, y: u16) -> [u8; 7] {
    [
        0,
        (x & 0xFF) as u8,
        (x >> 8) as u8,
        (y & 0xFF) as u8,
        (y >> 8) as u8,
        0,
        0,
    ]
}

#[test]
fn new_driver_state_defaults() {
    let g = GT911::new();
    assert_eq!(g.address, 0x5D);
    assert!(matches!(g.orientation, Orientation::Landscape));
    assert_eq!(
        g.size,
        Dimension {
            height: 480,
            width: 800
        }
    );
    assert_eq!(g.last_tp, TouchPoint { x: 0, y: 0 });
}

#[test]
fn set_orientation_and_size() {
    let mut g = GT911::new();
    g.set_orientation(Orientation::InvertedLandscape);
    g.set_size(320, 240);
    assert!(matches!(g.orientation, Orientation::InvertedLandscape));
    assert_eq!(
        g.size,
        Dimension {
            height: 320,
            width: 240
        }
    );
    assert_eq!(g.address, 0x5D);
    assert_eq!(g.last_tp, TouchPoint { x: 0, y: 0 });
}

#[test]
fn single_touch_presses_and_retains_point() {
    let mut g = GT911::new();
    let ts = g.poll(0x81, Some(&record(10, 20)));
    assert_eq!(ts, TouchState::PRESSED(TouchPoint { x: 10, y: 20 }));
    assert_eq!(g.last_tp, TouchPoint { x: 10, y: 20 });
}

#[test]
fn debounce_sequence_press_multi_release() {
    // One unambiguous touch, then a multi-touch frame, then silence:
    // PRESSED(10,20), RELEASED(10,20), RELEASED(10,20). The multi-touch
    // frame must not overwrite the retained point.
    let mut g = GT911::new();
    let first = g.poll(0x81, Some(&record(10, 20)));
    assert_eq!(first, TouchState::PRESSED(TouchPoint { x: 10, y: 20 }));

    let second = g.poll(0x83, Some(&record(500, 400)));
    assert_eq!(second, TouchState::RELEASED(TouchPoint { x: 10, y: 20 }));
    assert_eq!(g.last_tp, TouchPoint { x: 10, y: 20 });

    let third = g.poll(0x00, None);
    assert_eq!(third, TouchState::RELEASED(TouchPoint { x: 10, y: 20 }));
    assert_eq!(g.last_tp, TouchPoint { x: 10, y: 20 });
}

#[test]
fn idle_polls_release_the_same_point_without_drift() {
    let mut g = GT911::new();
    g.poll(0x81, Some(&record(33, 44)));
    let a = g.poll(0x00, None);
    let b = g.poll(0x00, None);
    assert_eq!(a, TouchState::RELEASED(TouchPoint { x: 33, y: 44 }));
    assert_eq!(b, a);
}

#[test]
fn ready_with_zero_count_releases_retained_point() {
    let mut g = GT911::new();
    g.poll(0x81, Some(&record(5, 6)));
    let ts = g.poll(0x80, Some(&record(7, 8)));
    assert_eq!(ts, TouchState::RELEASED(TouchPoint { x: 5, y: 6 }));
    assert_eq!(g.last_tp, TouchPoint { x: 5, y: 6 });
}

#[test]
fn poll_applies_the_configured_orientation() {
    let mut g = GT911::new();
    g.set_orientation(Orientation::InvertedLandscape);
    let ts = g.poll(0x81, Some(&record(300, 100)));
    assert_eq!(ts, TouchState::PRESSED(TouchPoint { x: 500, y: 380 }));
}
