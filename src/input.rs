use vstd::prelude::*;

verus! {

/// The keys the renderer reacts to; every other key is `Other`.
#[derive(Clone, Copy, Debug, PartialEq, Eq, Structural)]
pub enum Key {
    W,
    A,
    S,
    D,
    Up,
    Down,
    Left,
    Right,
    Space,
    Escape,
    Other,
}

/// Whether a key went down or came up.
#[derive(Clone, Copy, Debug, PartialEq, Eq, Structural)]
pub enum KeyState {
    Pressed,
    Released,
}

/// A window event, as far as the renderer looks at it.
#[derive(Clone, Copy, Debug, PartialEq, Eq, Structural)]
pub enum WindowEvent {
    /// A key with a known key code went down or came up.
    Keyboard { key: Key, state: KeyState },
    /// The window's inner size changed, in physical pixels.
    Resized { width: u32, height: u32 },
    /// The scale factor changed and with it the inner size.
    ScaleFactorChanged { width: u32, height: u32 },
    CloseRequested,
    Other,
}

} // verus!
