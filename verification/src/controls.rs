//! First-person controls: what a key, a click or a move of the mouse asks
//! for, and a counter of frames per second.

use vstd::prelude::*;
use crate::command::CursorMode;

verus! {

/// The keys that the controls know.
#[derive(Clone, Copy, Debug, PartialEq, Eq)]
pub enum Key {
    W,
    A,
    S,
    D,
    Space,
    LeftShift,
    Escape,
    Other,
}

/// What happened to a key or a button.
#[derive(Clone, Copy, Debug, PartialEq, Eq)]
pub enum KeyAction {
    Press,
    Release,
    Repeat,
}

/// An input event, as far as the controls tell events apart.
#[derive(Clone, Copy, Debug, PartialEq, Eq)]
pub enum ControlEvent {
    Key(Key, KeyAction),
    /// The left button of the mouse.
    LeftButton(KeyAction),
    /// The cursor is at a new place.
    CursorPos,
    Other,
}

/// A direction to move the camera in. The first four are relative to where
/// the camera looks and stay level; up and down follow the world.
#[derive(Clone, Copy, Debug, PartialEq, Eq)]
pub enum Direction {
    Forward,
    Backward,
    Left,
    Right,
    Up,
    Down,
}

/// What the controls ask for in answer to an event.
#[derive(Clone, Copy, Debug, PartialEq, Eq)]
pub enum Response {
    /// Nothing.
    Ignore,
    /// Move the camera one step.
    Move(Direction),
    /// Turn the camera by the way that the cursor has gone.
    Look,
    /// Change how the cursor behaves over the window.
    Cursor(CursorMode),
    /// Ask the window to close.
    Close,
}

/// The state of the controls: whether the mouse is locked to the window and
/// turns the camera.
#[derive(Clone, Copy, Debug, PartialEq, Eq)]
pub struct Controls {
    pub mouse_locked: bool,
}

impl Controls {
    /// Whether the mouse is locked after the event: a click of the left
    /// button locks it, letting go of escape unlocks it.
    pub open spec fn locked_after(self, event: ControlEvent) -> bool {
        match event {
            ControlEvent::Key(Key::Escape, KeyAction::Release) => false,
            ControlEvent::LeftButton(KeyAction::Release) => true,
            _ => self.mouse_locked,
        }
    }

    /// What the event asks for. The keys W, A, S and D move the camera
    /// level, space and left shift move it up and down, whatever happened to
    /// the key. Letting go of escape frees a locked mouse, and closes the
    /// window where the mouse is free already. A click of the left button
    /// locks a free mouse. A move of the cursor turns the camera while the
    /// mouse is locked.
    pub open spec fn response(self, event: ControlEvent) -> Response {
        match event {
            ControlEvent::Key(Key::W, _) => Response::Move(Direction::Forward),
            ControlEvent::Key(Key::S, _) => Response::Move(Direction::Backward),
            ControlEvent::Key(Key::A, _) => Response::Move(Direction::Left),
            ControlEvent::Key(Key::D, _) => Response::Move(Direction::Right),
            ControlEvent::Key(Key::Space, _) => Response::Move(Direction::Up),
            ControlEvent::Key(Key::LeftShift, _) => Response::Move(Direction::Down),
            ControlEvent::Key(Key::Escape, KeyAction::Release) => if self.mouse_locked {
                Response::Cursor(CursorMode::Normal)
            } else {
                Response::Close
            },
            ControlEvent::LeftButton(KeyAction::Release) => if self.mouse_locked {
                Response::Ignore
            } else {
                Response::Cursor(CursorMode::Disabled)
            },
            ControlEvent::CursorPos => if self.mouse_locked {
                Response::Look
            } else {
                Response::Ignore
            },
            _ => Response::Ignore,
        }
    }

    /// Controls with a free mouse.
    pub fn new() -> (controls: Self)
        ensures
            !controls.mouse_locked,
    {
        Controls { mouse_locked: false }
    }

    /// Takes an event, and returns what it asks for.
    pub fn on_event(&mut self, event: ControlEvent) -> (response: Response)
        ensures
            response == old(self).response(event),
            final(self).mouse_locked == old(self).locked_after(event),
    {
        match event {
            ControlEvent::Key(Key::W, _) => Response::Move(Direction::Forward),
            ControlEvent::Key(Key::S, _) => Response::Move(Direction::Backward),
            ControlEvent::Key(Key::A, _) => Response::Move(Direction::Left),
            ControlEvent::Key(Key::D, _) => Response::Move(Direction::Right),
            ControlEvent::Key(Key::Space, _) => Response::Move(Direction::Up),
            ControlEvent::Key(Key::LeftShift, _) => Response::Move(Direction::Down),
            ControlEvent::Key(Key::Escape, KeyAction::Release) => {
                let response = if self.mouse_locked {
                    Response::Cursor(CursorMode::Normal)
                } else {
                    Response::Close
                };
                self.mouse_locked = false;
                response
            },
            ControlEvent::LeftButton(KeyAction::Release) => {
                let response = if self.mouse_locked {
                    Response::Ignore
                } else {
                    Response::Cursor(CursorMode::Disabled)
                };
                self.mouse_locked = true;
                response
            },
            ControlEvent::CursorPos => {
                if self.mouse_locked {
                    Response::Look
                } else {
                    Response::Ignore
                }
            },
            _ => Response::Ignore,
        }
    }
}

/// The nanoseconds in a second.
pub const SECOND: u64 = 1_000_000_000;

/// A counter of frames per second.
#[derive(Clone, Copy, Debug, PartialEq, Eq)]
pub struct FrameCounter {
    /// The nanoseconds since the last report.
    pub time: u64,
    /// The frames since the last report.
    pub frames: u32,
}

impl FrameCounter {
    /// Whether the counter can take a frame of `delta` nanoseconds: neither
    /// of its numbers runs over.
    pub open spec fn has_room(self, delta: u64) -> bool {
        self.time + delta <= u64::MAX && self.frames < u32::MAX
    }

    /// Whether a report is due once `delta` nanoseconds have gone by.
    pub open spec fn due(self, delta: u64) -> bool {
        self.time + delta >= SECOND
    }

    /// The counter after a frame that took `delta` nanoseconds: where a
    /// report is due it starts over, and in any case it counts the frame.
    pub open spec fn after(self, delta: u64) -> Self {
        if self.due(delta) {
            FrameCounter { time: 0, frames: 1 }
        } else {
            FrameCounter { time: (self.time + delta) as u64, frames: (self.frames + 1) as u32 }
        }
    }

    /// A counter that has seen no frame.
    pub fn new() -> (counter: Self)
        ensures
            counter == (FrameCounter { time: 0, frames: 0 }),
    {
        FrameCounter { time: 0, frames: 0 }
    }

    /// Whether the counter can take a frame of `delta` nanoseconds.
    pub fn can_tick(&self, delta: u64) -> (room: bool)
        ensures
            room == self.has_room(delta),
    {
        self.time <= u64::MAX - delta && self.frames < u32::MAX
    }

    /// Counts a frame that took `delta` nanoseconds. Once a second or more
    /// has gone by since the last report, returns the number of frames
    /// counted before this one, and starts over.
    pub fn tick(&mut self, delta: u64) -> (report: Option<u32>)
        requires
            old(self).has_room(delta),
        ensures
            report == (if old(self).due(delta) {
                Some(old(self).frames)
            } else {
                None
            }),
            *final(self) == old(self).after(delta),
    {
        self.time = self.time + delta;
        let mut report = None;
        if self.time >= SECOND {
            report = Some(self.frames);
            self.frames = 0;
            self.time = 0;
        }
        self.frames = self.frames + 1;
        report
    }
}

} // verus!
