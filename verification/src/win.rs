//! Plain stand-ins for the operating system's input and bitmap records, and the inputs the
//! player builds from them.
#![allow(non_camel_case_types, non_snake_case)]

use vstd::prelude::*;
use vstd::std_specs::convert::FromSpecImpl;

use crate::input::{key_code_spec, KeyState, MouseEvent, VirtualKey};
use crate::ivec2::fits_i32;

verus! {

/// The error of a failed system call; it carries no information.
#[derive(Debug, Clone, Copy, PartialEq, Eq)]
pub struct Error(pub ());

/// A specialized [`Result`] type for system calls.
pub type WindowsResult<T> = Result<T, Error>;

/// A 32-bit value representing boolean values and returned by some functions to indicate success or failure.
#[derive(Debug, Clone, Copy, PartialEq, Eq, Structural)]
pub struct BOOL(pub i32);

impl BOOL {
    /// Converts the [`BOOL`] to a [`prim@bool`] value.
    pub fn as_bool(self) -> (b: bool)
        ensures
            b == (self.0 != 0),
    {
        self.0 != 0
    }

    /// Converts the [`BOOL`] to [`WindowsResult<()>`].
    pub fn ok(self) -> (r: WindowsResult<()>)
        ensures
            r is Ok <==> self.0 != 0,
    {
        if self.0 != 0 {
            Ok(())
        } else {
            Err(Error(()))
        }
    }

    /// Asserts that `self` is a success code.
    pub fn unwrap(self)
        requires
            self.0 != 0,
    {
    }

    /// Asserts that `self` is a success code using the given panic message.
    pub fn expect(self, msg: &str)
        requires
            self.0 != 0,
    {
    }
}

/// A bitmap compression kind.
#[derive(Debug, Clone, Copy, PartialEq, Eq, Structural)]
pub struct BI_COMPRESSION(pub u32);

/// Value of the uncompressed RGB [`BI_COMPRESSION`].
pub const BI_RGB: u32 = 0;

/// A bitmap's header and color table.
#[derive(Debug, Clone, Copy, PartialEq, Eq)]
pub struct BITMAPINFO {
    pub bmiHeader: BITMAPINFOHEADER,
    pub bmiColors: [RGBQUAD; 1],
}

/// The size and format of a device-independent bitmap.
#[derive(Debug, Clone, Copy, PartialEq, Eq, Default, Structural)]
pub struct BITMAPINFOHEADER {
    pub biSize: u32,
    pub biWidth: i32,
    pub biHeight: i32,
    pub biPlanes: u16,
    pub biBitCount: u16,
    pub biCompression: u32,
    pub biSizeImage: u32,
    pub biXPelsPerMeter: i32,
    pub biYPelsPerMeter: i32,
    pub biClrUsed: u32,
    pub biClrImportant: u32,
}

/// The movement of a mouse event: to the absolute position of its target pixel, if it has one.
pub open spec fn event_movement(event: MouseEvent) -> Option<MouseMovement> {
    match event {
        MouseEvent::Goto(p) | MouseEvent::GotoAndBtn(p, _) => Some(
            MouseMovement {
                x: (p.x * MOUSE_SCALE_X) as i32,
                y: (p.y * MOUSE_SCALE_Y) as i32,
                translation: TranslateType::Absolute,
            },
        ),
        MouseEvent::Btn(_) => None,
    }
}

/// The left button change of a mouse event.
pub open spec fn event_m1(event: MouseEvent) -> M1State {
    match event {
        MouseEvent::Btn(KeyState::Down) | MouseEvent::GotoAndBtn(_, KeyState::Down) => M1State::Press,
        MouseEvent::Btn(KeyState::Up) | MouseEvent::GotoAndBtn(_, KeyState::Up) => M1State::Release,
        MouseEvent::Goto(_) => M1State::Unchanged,
    }
}

/// The target of a mouse event, if any, is on a screen small enough for its absolute mouse
/// coordinates to fit.
pub open spec fn mouse_event_ok(event: MouseEvent) -> bool {
    match event {
        MouseEvent::Goto(p) | MouseEvent::GotoAndBtn(p, _) => fits_i32(p.x * MOUSE_SCALE_X)
            && fits_i32(p.y * MOUSE_SCALE_Y),
        MouseEvent::Btn(_) => true,
    }
}

/// The one input that moves the mouse to the event's pixel, if it has one, and sets the left
/// button as the event says.
pub fn mouse_event_input(event: MouseEvent) -> (i: INPUT)
    requires
        mouse_event_ok(event),
    ensures
        i.input_type == INPUT_TYPE(INPUT_MOUSE),
        is_variant(i.Anonymous, "mi"),
        get_union_field::<INPUT_0, MOUSEINPUT>(i.Anonymous, "mi") == mouse_event(
            event_movement(event),
            event_m1(event),
        ),
{
    let (goto, m1) = event.unzip();
    let movement = match goto {
        Some(p) => Some(
            MouseMovement {
                x: p.x * MOUSE_SCALE_X,
                y: p.y * MOUSE_SCALE_Y,
                translation: TranslateType::Absolute,
            },
        ),
        None => None,
    };
    let m1_state = match m1 {
        Some(KeyState::Down) => M1State::Press,
        Some(KeyState::Up) => M1State::Release,
        None => M1State::Unchanged,
    };
    mouse_input(movement, m1_state)
}

/// One input per key, in order, that sets it to `state`.
pub fn key_event_inputs(keys: &[VirtualKey], state: KeyState) -> (v: Vec<INPUT>)
    ensures
        v@.len() == keys@.len(),
        forall|k: int|
            0 <= k < keys@.len() ==> {
                &&& #[trigger] v@[k].input_type == INPUT_TYPE(INPUT_KEYBOARD)
                &&& is_variant(v@[k].Anonymous, "ki")
                &&& get_union_field::<INPUT_0, KEYBDINPUT>(v@[k].Anonymous, "ki") == key_event(
                    keys@[k],
                    state == KeyState::Up,
                )
            },
{
    let mut v: Vec<INPUT> = Vec::new();
    let mut k: usize = 0;
    while k < keys.len()
        invariant
            0 <= k <= keys@.len(),
            v@.len() == k,
            forall|j: int|
                0 <= j < k ==> {
                    &&& #[trigger] v@[j].input_type == INPUT_TYPE(INPUT_KEYBOARD)
                    &&& is_variant(v@[j].Anonymous, "ki")
                    &&& get_union_field::<INPUT_0, KEYBDINPUT>(v@[j].Anonymous, "ki") == key_event(
                        keys@[j],
                        state == KeyState::Up,
                    )
                },
        decreases keys@.len() - k,
    {
        let key_up = match state {
            KeyState::Up => true,
            KeyState::Down => false,
        };
        v.push(key_input(keys[k], key_up));
        k = k + 1;
    }
    v
}

/// How the colors of a bitmap's color table are given.
#[derive(Debug, Clone, Copy, PartialEq, Eq, Default, Structural)]
pub struct DIB_USAGE(pub u32);

/// Value of the [`DIB_USAGE`] of literal RGB colors.
pub const DIB_RGB_COLORS: u32 = 0;

/// Value of the [`DIB_USAGE`] of palette indexes.
pub const DIB_PAL_COLORS: u32 = 1;

/// One color of a color table.
#[derive(Debug, Clone, Copy, PartialEq, Eq, Default, Structural)]
pub struct RGBQUAD {
    pub rgbBlue: u8,
    pub rgbGreen: u8,
    pub rgbRed: u8,
    pub rgbReserved: u8,
}

/// A raster operation of a bit-block transfer.
#[derive(Debug, Clone, Copy, PartialEq, Eq, Default, Structural)]
pub struct ROP_CODE(pub u32);

/// Value of the [`ROP_CODE`] that copies the source.
pub const SRCCOPY: u32 = 13369376;

/// `flags` has every bit of `other`.
pub open spec fn has_all_bits(flags: u32, other: u32) -> bool {
    flags & other == other
}

impl ROP_CODE {
    /// Whether every bit of `other` is set in `self`
    pub fn contains(&self, other: Self) -> (b: bool)
        ensures
            b == has_all_bits(self.0, other.0),
    {
        self.0 & other.0 == other.0
    }
}

/// Which member of an [`INPUT`] is in use.
#[derive(Debug, Clone, Copy, PartialEq, Eq, Default, Structural)]
pub struct INPUT_TYPE(pub u32);

/// Value of the [`INPUT_TYPE`] of mouse input.
pub const INPUT_MOUSE: u32 = 0;

/// Value of the [`INPUT_TYPE`] of keyboard input.
pub const INPUT_KEYBOARD: u32 = 1;

/// Value of the [`INPUT_TYPE`] of hardware input.
pub const INPUT_HARDWARE: u32 = 2;

/// One input event for the system's input stream; `Anonymous` holds the member that
/// `input_type` names.
pub struct INPUT {
    pub input_type: INPUT_TYPE,
    pub Anonymous: INPUT_0,
}

/// The event of an [`INPUT`]: mouse, keyboard or hardware.
pub union INPUT_0 {
    pub mi: MOUSEINPUT,
    pub ki: KEYBDINPUT,
    pub hi: HARDWAREINPUT,
}

/// A mouse event.
#[derive(Debug, Clone, Copy, PartialEq, Eq, Default, Structural)]
pub struct MOUSEINPUT {
    pub dx: i32,
    pub dy: i32,
    pub mouseData: u32,
    pub dwFlags: MOUSE_EVENT_FLAGS,
    pub time: u32,
    pub dwExtraInfo: usize,
}

/// A mouse position with the time it was reached.
#[derive(Debug, Clone, Copy, PartialEq, Eq, Default, Structural)]
pub struct MOUSEMOVEPOINT {
    pub x: i32,
    pub y: i32,
    pub time: u32,
    pub dwExtraInfo: usize,
}

/// Flags of a mouse event.
#[derive(Debug, Clone, Copy, PartialEq, Eq, Default, Structural)]
pub struct MOUSE_EVENT_FLAGS(pub u32);

impl MOUSE_EVENT_FLAGS {
    /// Whether every bit of `other` is set in `self`
    pub fn contains(&self, other: Self) -> (b: bool)
        ensures
            b == has_all_bits(self.0, other.0),
    {
        self.0 & other.0 == other.0
    }
}

/// Value of the [`MOUSE_EVENT_FLAGS`] bit of absolute coordinates.
pub const MOUSEEVENTF_ABSOLUTE: u32 = 32768;

/// Value of the [`MOUSE_EVENT_FLAGS`] bit of pressing the left button.
pub const MOUSEEVENTF_LEFTDOWN: u32 = 2;

/// Value of the [`MOUSE_EVENT_FLAGS`] bit of releasing the left button.
pub const MOUSEEVENTF_LEFTUP: u32 = 4;

/// Value of the [`MOUSE_EVENT_FLAGS`] bit of moving.
pub const MOUSEEVENTF_MOVE: u32 = 1;

/// A virtual key code.
#[derive(Debug, Clone, Copy, PartialEq, Eq, Default, Structural)]
pub struct VIRTUAL_KEY(pub u16);

/// A keyboard event.
#[derive(Debug, Clone, Copy, PartialEq, Eq, Default, Structural)]
pub struct KEYBDINPUT {
    pub wVk: VIRTUAL_KEY,
    pub wScan: u16,
    pub dwFlags: KEYBD_EVENT_FLAGS,
    pub time: u32,
    pub dwExtraInfo: usize,
}

/// Flags of a keyboard event.
#[derive(Debug, Clone, Copy, PartialEq, Eq, Default, Structural)]
pub struct KEYBD_EVENT_FLAGS(pub u32);

impl KEYBD_EVENT_FLAGS {
    /// Whether every bit of `other` is set in `self`
    pub fn contains(&self, other: Self) -> (b: bool)
        ensures
            b == has_all_bits(self.0, other.0),
    {
        self.0 & other.0 == other.0
    }
}

/// Value of the [`KEYBD_EVENT_FLAGS`] bit of releasing a key.
pub const KEYEVENTF_KEYUP: u32 = 2;

/// A hardware event.
#[derive(Debug, Clone, Copy, PartialEq, Eq, Default, Structural)]
pub struct HARDWAREINPUT {
    pub uMsg: u32,
    pub wParamL: u16,
    pub wParamH: u16,
}

/// Which system metric to read.
#[derive(Debug, Clone, Copy, PartialEq, Eq, Default, Structural)]
pub struct SYSTEM_METRICS_INDEX(pub i32);

/// Value of the [`SYSTEM_METRICS_INDEX`] of the virtual screen's width.
pub const SM_CXVIRTUALSCREEN: i32 = 78;

/// Value of the [`SYSTEM_METRICS_INDEX`] of the virtual screen's height.
pub const SM_CYVIRTUALSCREEN: i32 = 79;

/// A point on the screen.
#[derive(Debug, Clone, Copy, PartialEq, Eq, Default, Structural)]
pub struct POINT {
    pub x: i32,
    pub y: i32,
}

/// The size of a [`BITMAPINFOHEADER`] in bytes: nine 4-byte and two 2-byte fields.
pub const BITMAPINFOHEADER_SIZE: u32 = 40;

/// The header of a top-down 32-bit uncompressed RGB bitmap `width` by `height` pixels.
pub open spec fn bitmap_header(width: i32, height: i32) -> BITMAPINFOHEADER {
    BITMAPINFOHEADER {
        biSize: BITMAPINFOHEADER_SIZE,
        biWidth: width,
        biHeight: -height as i32,
        biPlanes: 1,
        biBitCount: 32,
        biCompression: BI_RGB,
        biSizeImage: 0,
        biXPelsPerMeter: 0,
        biYPelsPerMeter: 0,
        biClrUsed: 0,
        biClrImportant: 0,
    }
}

/// Describes a top-down (negative height) 32-bit uncompressed RGB bitmap `width` by
/// `height` pixels
pub fn bitmap_info(width: i32, height: i32) -> (b: BITMAPINFO)
    requires
        height != i32::MIN,
    ensures
        b.bmiHeader == bitmap_header(width, height),
        b.bmiColors@ == seq![RGBQUAD { rgbBlue: 0, rgbGreen: 0, rgbRed: 0, rgbReserved: 0 }],
{
    let b = BITMAPINFO {
        bmiHeader: BITMAPINFOHEADER {
            biSize: BITMAPINFOHEADER_SIZE,
            biWidth: width,
            biHeight: -height,
            biPlanes: 1,
            biBitCount: 32,
            biCompression: BI_RGB,
            biSizeImage: 0,
            biXPelsPerMeter: 0,
            biYPelsPerMeter: 0,
            biClrUsed: 0,
            biClrImportant: 0,
        },
        bmiColors: [RGBQUAD { rgbBlue: 0, rgbGreen: 0, rgbRed: 0, rgbReserved: 0 }],
    };
    assert(b.bmiColors@ =~= seq![RGBQUAD { rgbBlue: 0, rgbGreen: 0, rgbRed: 0, rgbReserved: 0 }]);
    b
}

/// The keyboard event of pressing (or, with `key_up`, releasing) `key`.
pub open spec fn key_event(key: VirtualKey, key_up: bool) -> KEYBDINPUT {
    KEYBDINPUT {
        wVk: VIRTUAL_KEY(key_code_spec(key) as u16),
        wScan: 0,
        dwFlags: KEYBD_EVENT_FLAGS(
            if key_up {
                KEYEVENTF_KEYUP
            } else {
                0
            },
        ),
        time: 0,
        dwExtraInfo: 0,
    }
}

/// The input of pressing (or, with `key_up`, releasing) `key`
pub fn key_input(key: VirtualKey, key_up: bool) -> (i: INPUT)
    ensures
        i.input_type == INPUT_TYPE(INPUT_KEYBOARD),
        is_variant(i.Anonymous, "ki"),
        get_union_field::<INPUT_0, KEYBDINPUT>(i.Anonymous, "ki") == key_event(key, key_up),
{
    INPUT {
        input_type: INPUT_TYPE(INPUT_KEYBOARD),
        Anonymous: INPUT_0 {
            ki: KEYBDINPUT {
                wVk: VIRTUAL_KEY(key.code() as u16),
                wScan: 0,
                dwFlags: if key_up {
                    KEYBD_EVENT_FLAGS(KEYEVENTF_KEYUP)
                } else {
                    KEYBD_EVENT_FLAGS(0)
                },
                time: 0,
                dwExtraInfo: 0,
            },
        },
    }
}

/// Whether a mouse movement is relative to the current position or absolute.
#[derive(Debug, Clone, Copy, PartialEq, Eq, Hash, Structural)]
pub enum TranslateType {
    Relative,
    Absolute,
}

/// The mouse event flag of each [`TranslateType`].
pub open spec fn translate_flag(t: TranslateType) -> u32 {
    match t {
        TranslateType::Relative => 0,
        TranslateType::Absolute => MOUSEEVENTF_ABSOLUTE,
    }
}

impl TranslateType {
    /// The mouse event flag of this kind of movement
    pub fn flag(self) -> (f: u32)
        ensures
            f == translate_flag(self),
    {
        match self {
            TranslateType::Relative => 0,
            TranslateType::Absolute => MOUSEEVENTF_ABSOLUTE,
        }
    }
}

/// What happens to the left mouse button.
#[derive(Debug, Clone, Copy, PartialEq, Eq, Hash, Structural)]
pub enum M1State {
    /// The button is left as it is
    Unchanged,
    Press,
    Release,
}

/// The mouse event flag of each [`M1State`].
pub open spec fn m1_flag(m: M1State) -> u32 {
    match m {
        M1State::Unchanged => 0,
        M1State::Press => MOUSEEVENTF_LEFTDOWN,
        M1State::Release => MOUSEEVENTF_LEFTUP,
    }
}

impl M1State {
    /// The mouse event flag of this button change
    pub fn flag(self) -> (f: u32)
        ensures
            f == m1_flag(self),
    {
        match self {
            M1State::Unchanged => 0,
            M1State::Press => MOUSEEVENTF_LEFTDOWN,
            M1State::Release => MOUSEEVENTF_LEFTUP,
        }
    }
}

/// A mouse movement.
#[derive(Debug, Clone, Copy, PartialEq, Eq, Hash, Structural)]
pub struct MouseMovement {
    pub x: i32,
    pub y: i32,
    pub translation: TranslateType,
}

/// The mouse event of an optional movement and a left button change.
pub open spec fn mouse_event(movement: Option<MouseMovement>, m1: M1State) -> MOUSEINPUT {
    let (dx, dy, movement_flags) = match movement {
        Some(m) => (m.x, m.y, MOUSEEVENTF_MOVE | translate_flag(m.translation)),
        None => (0i32, 0i32, 0u32),
    };
    MOUSEINPUT {
        dx,
        dy,
        mouseData: 0,
        dwFlags: MOUSE_EVENT_FLAGS(movement_flags | m1_flag(m1)),
        time: 0,
        dwExtraInfo: 0,
    }
}

/// The input of an optional mouse movement and a left button change
pub fn mouse_input(movement: Option<MouseMovement>, m1: M1State) -> (i: INPUT)
    ensures
        i.input_type == INPUT_TYPE(INPUT_MOUSE),
        is_variant(i.Anonymous, "mi"),
        get_union_field::<INPUT_0, MOUSEINPUT>(i.Anonymous, "mi") == mouse_event(movement, m1),
{
    let (dx, dy, movement_flags) = match movement {
        Some(m) => (m.x, m.y, MOUSEEVENTF_MOVE | m.translation.flag()),
        None => (0, 0, 0),
    };
    INPUT {
        input_type: INPUT_TYPE(INPUT_MOUSE),
        Anonymous: INPUT_0 {
            mi: MOUSEINPUT {
                dx,
                dy,
                mouseData: 0,
                dwFlags: MOUSE_EVENT_FLAGS(movement_flags | m1.flag()),
                time: 0,
                dwExtraInfo: 0,
            },
        },
    }
}

/// The input of moving the mouse by `p` pixels from where it is
pub fn mouse_move_input(p: POINT) -> (i: INPUT)
    ensures
        i.input_type == INPUT_TYPE(INPUT_MOUSE),
        is_variant(i.Anonymous, "mi"),
        get_union_field::<INPUT_0, MOUSEINPUT>(i.Anonymous, "mi") == mouse_event(
            Some(MouseMovement { x: p.x, y: p.y, translation: TranslateType::Relative }),
            M1State::Unchanged,
        ),
{
    mouse_input(
        Some(MouseMovement { x: p.x, y: p.y, translation: TranslateType::Relative }),
        M1State::Unchanged,
    )
}

/// Horizontal scale from pixels to absolute mouse coordinates.
pub const MOUSE_SCALE_X: i32 = 34;

/// Vertical scale from pixels to absolute mouse coordinates.
pub const MOUSE_SCALE_Y: i32 = 61;

/// The pixel `p` is on a screen small enough for its absolute mouse coordinates to fit.
pub open spec fn mouse_goto_ok(p: POINT) -> bool {
    fits_i32(p.x * MOUSE_SCALE_X) && fits_i32(p.y * MOUSE_SCALE_Y)
}

/// The input of moving the mouse to pixel `p`
pub fn mouse_goto_input(p: POINT) -> (i: INPUT)
    requires
        mouse_goto_ok(p),
    ensures
        i.input_type == INPUT_TYPE(INPUT_MOUSE),
        is_variant(i.Anonymous, "mi"),
        get_union_field::<INPUT_0, MOUSEINPUT>(i.Anonymous, "mi") == mouse_event(
            Some(
                MouseMovement {
                    x: (p.x * MOUSE_SCALE_X) as i32,
                    y: (p.y * MOUSE_SCALE_Y) as i32,
                    translation: TranslateType::Absolute,
                },
            ),
            M1State::Unchanged,
        ),
{
    mouse_input(
        Some(
            MouseMovement {
                x: p.x * MOUSE_SCALE_X,
                y: p.y * MOUSE_SCALE_Y,
                translation: TranslateType::Absolute,
            },
        ),
        M1State::Unchanged,
    )
}

/// The inputs of a left click: press, then release
pub fn simulate_mouse_click() -> (inputs: Vec<INPUT>)
    ensures
        inputs@.len() == 2,
        get_union_field::<INPUT_0, MOUSEINPUT>(inputs@[0].Anonymous, "mi") == mouse_event(
            None,
            M1State::Press,
        ),
        get_union_field::<INPUT_0, MOUSEINPUT>(inputs@[1].Anonymous, "mi") == mouse_event(
            None,
            M1State::Release,
        ),
        forall|k: int|
            0 <= k < 2 ==> #[trigger] inputs@[k].input_type == INPUT_TYPE(INPUT_MOUSE)
                && is_variant(inputs@[k].Anonymous, "mi"),
{
    let mut inputs = Vec::new();
    inputs.push(mouse_input(None, M1State::Press));
    inputs.push(mouse_input(None, M1State::Release));
    inputs
}

/// The inputs of a left click at pixel `p`: move there, press, then release
pub fn simulate_mouse_click_at(p: POINT) -> (inputs: Vec<INPUT>)
    requires
        mouse_goto_ok(p),
    ensures
        inputs@.len() == 3,
        get_union_field::<INPUT_0, MOUSEINPUT>(inputs@[0].Anonymous, "mi") == mouse_event(
            Some(
                MouseMovement {
                    x: (p.x * MOUSE_SCALE_X) as i32,
                    y: (p.y * MOUSE_SCALE_Y) as i32,
                    translation: TranslateType::Absolute,
                },
            ),
            M1State::Unchanged,
        ),
        get_union_field::<INPUT_0, MOUSEINPUT>(inputs@[1].Anonymous, "mi") == mouse_event(
            None,
            M1State::Press,
        ),
        get_union_field::<INPUT_0, MOUSEINPUT>(inputs@[2].Anonymous, "mi") == mouse_event(
            None,
            M1State::Release,
        ),
        forall|k: int|
            0 <= k < 3 ==> #[trigger] inputs@[k].input_type == INPUT_TYPE(INPUT_MOUSE)
                && is_variant(inputs@[k].Anonymous, "mi"),
{
    let mut inputs = Vec::new();
    inputs.push(mouse_goto_input(p));
    let mut click = simulate_mouse_click();
    inputs.append(&mut click);
    inputs
}

/// How the colors of a bitmap's color table are given.
#[derive(Debug, Clone, Copy, PartialEq, Eq, Hash, Structural)]
pub enum DibUsage {
    /// The color table should consist of literal red, green, blue (RGB) values.
    Rgb,
    /// The color table should consist of an array of 16-bit indexes into the current logical palette.
    Pal,
}

impl Default for DibUsage {
    fn default() -> (d: Self)
        ensures
            d == DibUsage::Rgb,
    {
        DibUsage::Rgb
    }
}

/// The [`DIB_USAGE`] value of each [`DibUsage`].
pub open spec fn dib_usage_value(d: DibUsage) -> u32 {
    match d {
        DibUsage::Rgb => DIB_RGB_COLORS,
        DibUsage::Pal => DIB_PAL_COLORS,
    }
}

impl From<DibUsage> for DIB_USAGE {
    fn from(value: DibUsage) -> (u: Self) {
        match value {
            DibUsage::Rgb => DIB_USAGE(DIB_RGB_COLORS),
            DibUsage::Pal => DIB_USAGE(DIB_PAL_COLORS),
        }
    }
}

impl FromSpecImpl<DibUsage> for DIB_USAGE {
    open spec fn obeys_from_spec() -> bool {
        true
    }

    open spec fn from_spec(value: DibUsage) -> Self {
        DIB_USAGE(dib_usage_value(value))
    }
}

/// One input event, with its kind made explicit.
#[derive(Debug, Clone, Copy, PartialEq, Eq, Structural)]
pub enum Input {
    Mouse(MOUSEINPUT),
    Keybd(KEYBDINPUT),
    Hardware(HARDWAREINPUT),
}

/// Why the screen-capture handles could not be set up.
#[derive(Debug)]
pub enum WindowsHandlesError {
    /// The screen size could not be read, or it is zero.
    SystemMetrics,
    /// The screen size is negative.
    SystemMetricsTryFromInt(core::num::TryFromIntError),
    /// A system call failed.
    Windows(Error),
}

impl WindowsHandlesError {
    /// What went wrong, in words.
    pub fn message(&self) -> (m: &'static str)
        ensures
            *self is SystemMetrics ==> m@ == "could not obtain screen size"@,
            *self is SystemMetricsTryFromInt ==> m@ == "screen cannot be negative"@,
            *self is Windows ==> m@ == "windows error during initialization"@,
    {
        match self {
            WindowsHandlesError::SystemMetrics => "could not obtain screen size",
            WindowsHandlesError::SystemMetricsTryFromInt(_) => "screen cannot be negative",
            WindowsHandlesError::Windows(_) => "windows error during initialization",
        }
    }
}

/// What the screen-capture setup makes of one screen-size system metric: a negative size is an
/// error carrying the failed conversion, zero means the size could not be read, and any other
/// value is the size.
pub fn screen_size_from_metric(metric: i32) -> (r: Result<u32, WindowsHandlesError>)
    ensures
        metric < 0 ==> r matches Err(WindowsHandlesError::SystemMetricsTryFromInt(_)),
        metric == 0 ==> r matches Err(WindowsHandlesError::SystemMetrics),
        metric > 0 ==> (r matches Ok(v) && v == metric),
{
    match u32::try_from(metric) {
        Err(e) => Err(WindowsHandlesError::SystemMetricsTryFromInt(e)),
        Ok(0) => Err(WindowsHandlesError::SystemMetrics),
        Ok(v) => Ok(v),
    }
}

/// Whether a key is held, from the system's asynchronous key state: any bit but the lowest
/// (which only tells that the key was pressed since the last query) is set.
pub fn key_down_from_async(result: i16) -> (b: bool)
    ensures
        b == ((result & !1i16) != 0),
{
    (result & !1i16) != 0
}

} // verus!
