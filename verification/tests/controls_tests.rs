use tiny_render::{
    ControlEvent, Controls, CursorMode, Direction, FrameCounter, Key, KeyAction, Response,
};

const ACTIONS: [KeyAction; 3] = [KeyAction::Press, KeyAction::Release, KeyAction::Repeat];

#[test]
fn keys_move_the_camera_whatever_happened_to_them() {
    let moves = [
        (Key::W, Direction::Forward),
        (Key::S, Direction::Backward),
        (Key::A, Direction::Left),
        (Key::D, Direction::Right),
        (Key::Space, Direction::Up),
        (Key::LeftShift, Direction::Down),
    ];
    for locked in [false, true] {
        for (key, direction) in moves {
            for action in ACTIONS {
                let mut controls = Controls { mouse_locked: locked };
                assert_eq!(
                    controls.on_event(ControlEvent::Key(key, action)),
                    Response::Move(direction)
                );
                assert_eq!(controls.mouse_locked, locked);
            }
        }
    }
}

#[test]
fn escape_frees_the_mouse_or_closes_the_window() {
    let mut controls = Controls::new();
    assert!(!controls.mouse_locked);
    assert_eq!(
        controls.on_event(ControlEvent::Key(Key::Escape, KeyAction::Press)),
        Response::Ignore
    );
    assert_eq!(
        controls.on_event(ControlEvent::LeftButton(KeyAction::Press)),
        Response::Ignore
    );
    assert!(!controls.mouse_locked);
    assert_eq!(
        controls.on_event(ControlEvent::LeftButton(KeyAction::Release)),
        Response::Cursor(CursorMode::Disabled)
    );
    assert!(controls.mouse_locked);
    assert_eq!(
        controls.on_event(ControlEvent::LeftButton(KeyAction::Release)),
        Response::Ignore
    );
    assert!(controls.mouse_locked);
    assert_eq!(
        controls.on_event(ControlEvent::Key(Key::Escape, KeyAction::Release)),
        Response::Cursor(CursorMode::Normal)
    );
    assert!(!controls.mouse_locked);
    assert_eq!(
        controls.on_event(ControlEvent::Key(Key::Escape, KeyAction::Release)),
        Response::Close
    );
    assert!(!controls.mouse_locked);
}

#[test]
fn the_cursor_turns_the_camera_while_the_mouse_is_locked() {
    let mut controls = Controls::new();
    assert_eq!(controls.on_event(ControlEvent::CursorPos), Response::Ignore);
    controls.on_event(ControlEvent::LeftButton(KeyAction::Release));
    assert_eq!(controls.on_event(ControlEvent::CursorPos), Response::Look);
    assert_eq!(controls.on_event(ControlEvent::Other), Response::Ignore);
    assert_eq!(
        controls.on_event(ControlEvent::Key(Key::Other, KeyAction::Press)),
        Response::Ignore
    );
    assert!(controls.mouse_locked);
}

#[test]
fn frames_are_reported_once_a_second() {
    let mut counter = FrameCounter::new();
    assert_eq!(counter, FrameCounter { time: 0, frames: 0 });
    // four frames of a quarter of a second: the fourth completes the second
    assert_eq!(counter.tick(250_000_000), None);
    assert_eq!(counter.tick(250_000_000), None);
    assert_eq!(counter.tick(250_000_000), None);
    assert_eq!(counter, FrameCounter { time: 750_000_000, frames: 3 });
    assert_eq!(counter.tick(250_000_000), Some(3));
    assert_eq!(counter, FrameCounter { time: 0, frames: 1 });
    assert_eq!(counter.tick(999_999_999), None);
    assert_eq!(counter.tick(1), Some(2));
    assert_eq!(counter.tick(5_000_000_000), Some(1));
    assert_eq!(counter.tick(0), None);
    assert_eq!(counter, FrameCounter { time: 0, frames: 2 });
}

#[test]
fn the_counter_knows_when_it_is_full() {
    assert!(FrameCounter::new().can_tick(u64::MAX));
    assert!(FrameCounter { time: 1, frames: 0 }.can_tick(u64::MAX - 1));
    assert!(!FrameCounter { time: 1, frames: 0 }.can_tick(u64::MAX));
    assert!(FrameCounter { time: 0, frames: u32::MAX - 1 }.can_tick(0));
    assert!(!FrameCounter { time: 0, frames: u32::MAX }.can_tick(0));
    let mut counter = FrameCounter { time: 999_999_999, frames: 7 };
    assert_eq!(counter.tick(u64::MAX - 999_999_999), Some(7));
    assert_eq!(counter, FrameCounter { time: 0, frames: 1 });
}
