use vstd::prelude::*;

use crate::input::{Key, KeyState, WindowEvent};

verus! {

/// A direction the camera controller moves the eye in.
#[derive(Clone, Copy, Debug, PartialEq, Eq, Structural)]
pub enum Direction {
    /// Toward the target.
    Forward,
    /// Away from the target.
    Backward,
    /// Around the target, to the left.
    Left,
    /// Around the target, to the right.
    Right,
}

/// The direction a key stands for: W or Up forward, S or Down backward, A or
/// Left to the left, D or Right to the right.
pub open spec fn direction_of(key: Key) -> Option<Direction> {
    match key {
        Key::W | Key::Up => Some(Direction::Forward),
        Key::S | Key::Down => Some(Direction::Backward),
        Key::A | Key::Left => Some(Direction::Left),
        Key::D | Key::Right => Some(Direction::Right),
        _ => None,
    }
}

/// Which movement keys are held, and the step the eye moves by each tick.
/// The step is carried for the code that moves the eye; this type only
/// tracks the keys.
pub struct CameraController<S> {
    speed: S,
    is_forward_pressed: bool,
    is_backward_pressed: bool,
    is_left_pressed: bool,
    is_right_pressed: bool,
}

impl<S> CameraController<S> {
    pub closed spec fn spec_speed(&self) -> S {
        self.speed
    }

    /// Whether the keys of direction `d` are held.
    pub closed spec fn held(&self, d: Direction) -> bool {
        match d {
            Direction::Forward => self.is_forward_pressed,
            Direction::Backward => self.is_backward_pressed,
            Direction::Left => self.is_left_pressed,
            Direction::Right => self.is_right_pressed,
        }
    }

    /// A controller with step `speed` and no key held.
    pub fn new(speed: S) -> (r: Self)
        ensures
            r.spec_speed() == speed,
            forall|d: Direction| !#[trigger] r.held(d),
    {
        CameraController {
            speed,
            is_forward_pressed: false,
            is_backward_pressed: false,
            is_left_pressed: false,
            is_right_pressed: false,
        }
    }

    /// Records a movement key going down or up. Returns whether the event was
    /// such a key; every other event leaves the controller as it was.
    pub fn process_events(&mut self, event: &WindowEvent) -> (r: bool)
        ensures
            final(self).spec_speed() == old(self).spec_speed(),
            r == (*event matches WindowEvent::Keyboard { key, .. } && direction_of(key) is Some),
            match *event {
                WindowEvent::Keyboard { key, state } => match direction_of(key) {
                    Some(moved) => forall|d: Direction|
                        #[trigger] final(self).held(d) == if d == moved {
                            state == KeyState::Pressed
                        } else {
                            old(self).held(d)
                        },
                    None => forall|d: Direction| #[trigger] final(self).held(d) == old(self).held(d),
                },
                _ => forall|d: Direction| #[trigger] final(self).held(d) == old(self).held(d),
            },
    {
        match event {
            WindowEvent::Keyboard { key, state } => {
                let is_pressed = match state {
                    KeyState::Pressed => true,
                    KeyState::Released => false,
                };
                match key {
                    Key::W | Key::Up => {
                        self.is_forward_pressed = is_pressed;
                        true
                    },
                    Key::A | Key::Left => {
                        self.is_left_pressed = is_pressed;
                        true
                    },
                    Key::S | Key::Down => {
                        self.is_backward_pressed = is_pressed;
                        true
                    },
                    Key::D | Key::Right => {
                        self.is_right_pressed = is_pressed;
                        true
                    },
                    _ => false,
                }
            },
            _ => false,
        }
    }

    /// The step the eye moves by each tick.
    pub fn speed(&self) -> (r: &S)
        ensures
            *r == self.spec_speed(),
    {
        &self.speed
    }

    /// Whether the keys of direction `d` are held.
    pub fn is_pressed(&self, d: Direction) -> (r: bool)
        ensures
            r == self.held(d),
    {
        match d {
            Direction::Forward => self.is_forward_pressed,
            Direction::Backward => self.is_backward_pressed,
            Direction::Left => self.is_left_pressed,
            Direction::Right => self.is_right_pressed,
        }
    }
}

} // verus!
