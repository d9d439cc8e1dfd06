//! Keys, mouse events and the inputs the player sends to the game.
use vstd::prelude::*;

use crate::ivec2::IVec2;

verus! {

/// The current state of a key or button.
#[derive(Debug, Clone, Copy, PartialEq, Eq, Hash, Structural)]
pub enum KeyState {
    /// Depressed
    Up,
    /// Held
    Down,
}

impl Default for KeyState {
    fn default() -> (s: Self)
        ensures
            s == KeyState::Up,
    {
        KeyState::Up
    }
}

impl KeyState {
    /// The key is not held
    pub fn is_up(self) -> (b: bool)
        ensures
            b == (self == KeyState::Up),
    {
        match self {
            KeyState::Up => true,
            KeyState::Down => false,
        }
    }

    /// The key is held
    pub fn is_down(self) -> (b: bool)
        ensures
            b == (self == KeyState::Down),
    {
        match self {
            KeyState::Up => false,
            KeyState::Down => true,
        }
    }
}

/// Virtual keys used by the application
#[derive(Debug, Clone, Copy, PartialEq, Eq, Hash, Structural)]
pub enum VirtualKey {
    /// The key that toggles the front vent
    FrontVent,
    /// The key that toggles the left door
    LeftDoor,
    /// The key that toggles the camera monitor
    CameraToggle,
    /// The key that toggles the right door
    RightDoor,
    /// The key that toggles the right vent
    RightVent,
    /// The key that catches Old Man Consequences fish
    CatchFish,
    /// The key that closes ads
    CloseAd,
    /// The key that toggles the desk fan
    DeskFan,
    /// The 1 key
    One,
    /// The 2 key
    Two,
    /// The 3 key
    Three,
    /// The 4 key
    Four,
    /// The 5 key
    Five,
    /// The 6 key
    Six,
    /// The X key
    X,
    /// The key that activates the flashlight while held
    Flashlight,
    /// The key that exits the game
    Exit,
}

/// The platform key code of each virtual key (the character the key types).
pub open spec fn key_code_spec(key: VirtualKey) -> i32 {
    match key {
        VirtualKey::FrontVent => 87,
        VirtualKey::LeftDoor => 65,
        VirtualKey::CameraToggle => 83,
        VirtualKey::RightDoor => 68,
        VirtualKey::RightVent => 70,
        VirtualKey::CatchFish => 67,
        VirtualKey::CloseAd => 10,
        VirtualKey::DeskFan => 32,
        VirtualKey::One => 49,
        VirtualKey::Two => 50,
        VirtualKey::Three => 51,
        VirtualKey::Four => 52,
        VirtualKey::Five => 53,
        VirtualKey::Six => 54,
        VirtualKey::X => 88,
        VirtualKey::Flashlight => 90,
        VirtualKey::Exit => 27,
    }
}

impl VirtualKey {
    /// The platform key code: `'W'`, `'A'`, `'S'`, `'D'`, `'F'`, `'C'`, `'\n'`, `' '`,
    /// `'1'` to `'6'`, `'X'`, `'Z'` and escape.
    pub fn code(self) -> (c: i32)
        ensures
            c == key_code_spec(self),
    {
        match self {
            VirtualKey::FrontVent => 87,
            VirtualKey::LeftDoor => 65,
            VirtualKey::CameraToggle => 83,
            VirtualKey::RightDoor => 68,
            VirtualKey::RightVent => 70,
            VirtualKey::CatchFish => 67,
            VirtualKey::CloseAd => 10,
            VirtualKey::DeskFan => 32,
            VirtualKey::One => 49,
            VirtualKey::Two => 50,
            VirtualKey::Three => 51,
            VirtualKey::Four => 52,
            VirtualKey::Five => 53,
            VirtualKey::Six => 54,
            VirtualKey::X => 88,
            VirtualKey::Flashlight => 90,
            VirtualKey::Exit => 27,
        }
    }
}

/// Distinct keys have distinct codes.
pub proof fn lemma_key_codes_distinct(a: VirtualKey, b: VirtualKey)
    ensures
        key_code_spec(a) == key_code_spec(b) ==> a == b,
{
}

/// Mouse movement, left button, or both
#[derive(Debug, Clone, Copy, PartialEq, Eq, Hash, Structural)]
pub enum MouseEvent {
    /// Move the mouse to the absolute position.
    Goto(IVec2),
    /// Set the m1 (left mouse) button to this state.
    Btn(KeyState),
    /// Move the mouse to the absolute position, then set m1 (left mouse)
    /// button to this state.
    GotoAndBtn(IVec2, KeyState),
}

impl MouseEvent {
    /// Split a [`MouseEvent`] into a position and key state.
    ///
    /// At least one of these is guaranteed to be [`Some`].
    pub fn unzip(self) -> (r: (Option<IVec2>, Option<KeyState>))
        ensures
            r.0 is Some || r.1 is Some,
            match self {
                MouseEvent::Goto(p) => r == (Some(p), None::<KeyState>),
                MouseEvent::Btn(s) => r == (None::<IVec2>, Some(s)),
                MouseEvent::GotoAndBtn(p, s) => r == (Some(p), Some(s)),
            },
    {
        (
            match self {
                MouseEvent::Goto(pt) => Some(pt),
                MouseEvent::GotoAndBtn(pt, _) => Some(pt),
                _ => None,
            },
            match self {
                MouseEvent::Btn(s) => Some(s),
                MouseEvent::GotoAndBtn(_, s) => Some(s),
                _ => None,
            },
        )
    }
}

/// One input for the player to send to the game, or a pause between inputs.
#[derive(Debug, Clone, Copy, PartialEq, Eq, Hash, Structural)]
pub enum Action {
    /// Press a key
    KeyDown(VirtualKey),
    /// Release a key
    KeyUp(VirtualKey),
    /// Move the mouse to an absolute screen position
    MouseGoto(IVec2),
    /// Press the left mouse button
    MouseDown,
    /// Release the left mouse button
    MouseUp,
    /// Wait this many milliseconds
    SleepMs(u64),
}

} // verus!
