//! Why the platform's input and capture handles could not be set up or used.
use vstd::prelude::*;

use crate::input::KeyState;

verus! {

/// Why the shared handle could not be initialized.
#[derive(Debug, Clone, Copy, PartialEq, Eq, Hash, Structural)]
pub enum SharedHandleInitError {
    /// The desktop device context could not be had.
    DesktopHdc,
    /// No device context compatible with the desktop's could be made.
    InternalHdc,
}

impl SharedHandleInitError {
    /// What went wrong, in words.
    pub fn message(&self) -> (m: &'static str)
        ensures
            *self == SharedHandleInitError::DesktopHdc ==> m@
                == "failed to get desktop device context handle"@,
            *self == SharedHandleInitError::InternalHdc ==> m@
                == "failed to create device context compatible with desktop hdc"@,
    {
        match self {
            SharedHandleInitError::DesktopHdc => "failed to get desktop device context handle",
            SharedHandleInitError::InternalHdc => "failed to create device context compatible with desktop hdc",
        }
    }
}

/// A key's state could not be read.
#[derive(Debug, Clone, Copy, PartialEq, Eq, Hash, Default, Structural)]
pub struct GetKeyStateError;

impl GetKeyStateError {
    /// What went wrong, in words.
    pub fn message(&self) -> (m: &'static str)
        ensures
            m@ == "key state could not be read"@,
    {
        "key state could not be read"
    }
}

/// Why the screen handle could not be initialized.
#[derive(Debug, Clone, Copy, PartialEq, Eq, Hash, Structural)]
pub enum InitScreenHandleError {
    /// The screen size could not be read.
    ScreenSize,
    /// No bitmap compatible with the desktop could be made.
    CreateBitmap,
    /// The bitmap could not be selected into the internal device context.
    SelectBitmap,
}

impl InitScreenHandleError {
    /// What went wrong, in words.
    pub fn message(&self) -> (m: &'static str)
        ensures
            *self == InitScreenHandleError::ScreenSize ==> m@
                == "failed to obtain virtual screen size system metrics"@,
            *self == InitScreenHandleError::CreateBitmap ==> m@
                == "failed to create a compatible bitmap with the desktop hdc"@,
            *self == InitScreenHandleError::SelectBitmap ==> m@
                == "failed to select the created bitmap into the internal hdc"@,
    {
        match self {
            InitScreenHandleError::ScreenSize => "failed to obtain virtual screen size system metrics",
            InitScreenHandleError::CreateBitmap => "failed to create a compatible bitmap with the desktop hdc",
            InitScreenHandleError::SelectBitmap => "failed to select the created bitmap into the internal hdc",
        }
    }
}

/// What a shared handle's initialization makes of whether its two device contexts are valid:
/// the desktop's is checked first.
pub fn check_shared_handles(desktop_hdc_valid: bool, internal_hdc_valid: bool) -> (r: Result<
    (),
    SharedHandleInitError,
>)
    ensures
        !desktop_hdc_valid ==> r == Err::<(), SharedHandleInitError>(SharedHandleInitError::DesktopHdc),
        desktop_hdc_valid && !internal_hdc_valid ==> r == Err::<(), SharedHandleInitError>(
            SharedHandleInitError::InternalHdc,
        ),
        desktop_hdc_valid && internal_hdc_valid ==> r is Ok,
{
    if !desktop_hdc_valid {
        Err(SharedHandleInitError::DesktopHdc)
    } else if !internal_hdc_valid {
        Err(SharedHandleInitError::InternalHdc)
    } else {
        Ok(())
    }
}

/// A key's state from the system's asynchronous key state: zero means it could not be read,
/// a negative value (the top bit) means the key is held.
pub fn key_state_from_async(result: i16) -> (r: Result<KeyState, GetKeyStateError>)
    ensures
        result == 0 ==> r == Err::<KeyState, GetKeyStateError>(GetKeyStateError),
        result < 0 ==> r == Ok::<KeyState, GetKeyStateError>(KeyState::Down),
        result > 0 ==> r == Ok::<KeyState, GetKeyStateError>(KeyState::Up),
{
    if result == 0 {
        Err(GetKeyStateError)
    } else if result < 0 {
        Ok(KeyState::Down)
    } else {
        Ok(KeyState::Up)
    }
}

} // verus!
