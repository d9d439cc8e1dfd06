//! What the player knows of the game and how it decides what to do.
use vstd::prelude::*;
use vstd::std_specs::convert::FromSpecImpl;

use crate::clk::{updated, ClockTime};
use crate::color::channel_dev_spec;
use crate::comp_vis::{
    clock_readable, read_game_clock_spec, samples_readable, test_samples_gray_spec,
    ReadNumberError, ScreenData,
};
use crate::input::Action;
use crate::history::{records_appended, GameStateDelta, GameStateHistory};
use crate::ivec2::IVec2;

verus! {

/// What gamestate we are in (what we can see on the screen)
#[derive(Debug, Clone, Copy, PartialEq, Eq, Hash, Structural)]
pub enum State {
    Camera,
    Vent,
    Duct,
    Office,
}

impl State {
    /// The state's name, as shown to the user
    pub fn name(&self) -> (s: &'static str)
        ensures
            *self == State::Camera ==> s@ == "Camera"@,
            *self == State::Vent ==> s@ == "Vent"@,
            *self == State::Duct ==> s@ == "Duct"@,
            *self == State::Office ==> s@ == "Office"@,
    {
        match self {
            State::Camera => "Camera",
            State::Vent => "Vent",
            State::Duct => "Duct",
            State::Office => "Office",
        }
    }

    /// The state's position in the order `Camera, Vent, Duct, Office`
    pub fn index(&self) -> (i: i32)
        ensures
            i == state_index(*self),
    {
        match self {
            State::Camera => 0,
            State::Vent => 1,
            State::Duct => 2,
            State::Office => 3,
        }
    }
}

/// A state's position in the order `Camera, Vent, Duct, Office`.
pub open spec fn state_index(s: State) -> int {
    match s {
        State::Camera => 0,
        State::Vent => 1,
        State::Duct => 2,
        State::Office => 3,
    }
}

#[derive(Debug, Clone, Copy, PartialEq, Eq, Hash, Structural)]
pub enum Camera {
    WestHall,
    EastHall,
    Closet,
    Kitchen,
    PirateCove,
    ShowtimeStage,
    PrizeCounter,
    PartsAndServices,
}

/// A camera's position in the list of cameras, counting from 0 (`CAM 01` is 0).
pub open spec fn camera_index(c: Camera) -> int {
    match c {
        Camera::WestHall => 0,
        Camera::EastHall => 1,
        Camera::Closet => 2,
        Camera::Kitchen => 3,
        Camera::PirateCove => 4,
        Camera::ShowtimeStage => 5,
        Camera::PrizeCounter => 6,
        Camera::PartsAndServices => 7,
    }
}

/// The camera at position `i` of the list of cameras.
pub open spec fn camera_at(i: int) -> Camera {
    if i == 0 {
        Camera::WestHall
    } else if i == 1 {
        Camera::EastHall
    } else if i == 2 {
        Camera::Closet
    } else if i == 3 {
        Camera::Kitchen
    } else if i == 4 {
        Camera::PirateCove
    } else if i == 5 {
        Camera::ShowtimeStage
    } else if i == 6 {
        Camera::PrizeCounter
    } else {
        Camera::PartsAndServices
    }
}

impl Camera {
    /// The camera's name, as shown to the user
    pub fn name(&self) -> (s: &'static str)
        ensures
            *self == Camera::WestHall ==> s@ == "West hall"@,
            *self == Camera::EastHall ==> s@ == "East hall"@,
            *self == Camera::Closet ==> s@ == "Closet"@,
            *self == Camera::Kitchen ==> s@ == "Kitchen"@,
            *self == Camera::PirateCove ==> s@ == "Pirate cove"@,
            *self == Camera::ShowtimeStage ==> s@ == "Showtime stage"@,
            *self == Camera::PrizeCounter ==> s@ == "Prize counter"@,
            *self == Camera::PartsAndServices ==> s@ == "Parts and services"@,
    {
        match self {
            Camera::WestHall => "West hall",
            Camera::EastHall => "East hall",
            Camera::Closet => "Closet",
            Camera::Kitchen => "Kitchen",
            Camera::PirateCove => "Pirate cove",
            Camera::ShowtimeStage => "Showtime stage",
            Camera::PrizeCounter => "Prize counter",
            Camera::PartsAndServices => "Parts and services",
        }
    }

    /// The camera's position in the list of cameras, counting from 0
    pub fn index(&self) -> (i: i32)
        ensures
            i == camera_index(*self),
    {
        match self {
            Camera::WestHall => 0,
            Camera::EastHall => 1,
            Camera::Closet => 2,
            Camera::Kitchen => 3,
            Camera::PirateCove => 4,
            Camera::ShowtimeStage => 5,
            Camera::PrizeCounter => 6,
            Camera::PartsAndServices => 7,
        }
    }
}

#[derive(Debug, Clone, Copy, PartialEq, Eq, Hash, Structural)]
pub enum Vent {
    /// Snares reset after being tripped
    Inactive,
    WestSnare,
    NorthSnare,
    EastSnare,
}

impl Default for Vent {
    fn default() -> (v: Self)
        ensures
            v == Vent::Inactive,
    {
        Vent::Inactive
    }
}

impl Vent {
    /// The vent state's name, as shown to the user
    pub fn name(&self) -> (s: &'static str)
        ensures
            *self == Vent::Inactive ==> s@ == "Inactive"@,
            *self == Vent::WestSnare ==> s@ == "West snare"@,
            *self == Vent::NorthSnare ==> s@ == "North snare"@,
            *self == Vent::EastSnare ==> s@ == "East snare"@,
    {
        match self {
            Vent::Inactive => "Inactive",
            Vent::WestSnare => "West snare",
            Vent::NorthSnare => "North snare",
            Vent::EastSnare => "East snare",
        }
    }
}

#[derive(Debug, Clone, Copy, PartialEq, Eq, Hash, Structural)]
pub enum Duct {
    West,
    East,
}

impl Duct {
    /// The duct's name, as shown to the user
    pub fn name(&self) -> (s: &'static str)
        ensures
            *self == Duct::West ==> s@ == "West"@,
            *self == Duct::East ==> s@ == "East"@,
    {
        match self {
            Duct::West => "West",
            Duct::East => "East",
        }
    }
}

/// Width of the strip of the office scanned for the lamp, in pixels.
pub const LAMP_SCAN_WIDTH: i32 = 585;


/// What we know while looking around the office.
#[derive(Debug, Clone, Copy, PartialEq, Eq, Hash, Structural)]
pub struct OfficeData {
    /// How far left/right we are looking, as the column offset of the lamp within the scanned
    /// strip: the yaw is this over [`LAMP_SCAN_WIDTH`].
    pub office_yaw: u16,
    pub is_nmbb_standing: bool,
}

impl Default for OfficeData {
    fn default() -> (d: Self)
        ensures
            d == (OfficeData { office_yaw: 0, is_nmbb_standing: false }),
    {
        OfficeData { office_yaw: 0, is_nmbb_standing: false }
    }
}

/// What we know while looking at the cameras.
#[derive(Debug, Clone, Copy, PartialEq, Eq, Hash, Structural)]
pub struct CameraData {
    /// Which camera we are looking at
    pub camera: Camera,
}

/// What we know while looking at the vents.
#[derive(Debug, Clone, Copy, PartialEq, Eq, Hash, Structural)]
pub struct VentData {
    /// Which vent snare is active
    pub vent_snare: Vent,
}

impl Default for VentData {
    fn default() -> (d: Self)
        ensures
            d == (VentData { vent_snare: Vent::Inactive }),
    {
        VentData { vent_snare: Vent::Inactive }
    }
}

/// What we know while looking at the ducts.
#[derive(Debug, Clone, Copy, PartialEq, Eq, Hash, Structural)]
pub struct DuctData {
    /// Which duct is currently closed
    pub closed_duct: Duct,
    pub audio_lure: IVec2,
}

/// The last clock reading we trust, and the errors of the latest reading.
#[derive(Debug, Clone, Copy, PartialEq, Eq, Hash)]
pub struct ClockTimeResult {
    pub last_trusted: ClockTime,
    pub error: [Option<ReadNumberError>; 4],
}

impl Default for ClockTimeResult {
    fn default() -> (r: Self)
        ensures
            r.last_trusted == ClockTime::new_spec(0),
            r.error@ == seq![None::<ReadNumberError>, None, None, None],
    {
        ClockTimeResult { last_trusted: ClockTime::new(0), error: [None, None, None, None] }
    }
}

impl core::ops::Deref for ClockTimeResult {
    type Target = ClockTime;

    fn deref(&self) -> (t: &ClockTime)
        ensures
            *t == self.last_trusted,
    {
        &self.last_trusted
    }
}

impl From<ClockTime> for ClockTimeResult {
    fn from(value: ClockTime) -> (r: Self) {
        ClockTimeResult { last_trusted: value, error: [None, None, None, None] }
    }
}

impl FromSpecImpl<ClockTime> for ClockTimeResult {
    open spec fn obeys_from_spec() -> bool {
        true
    }

    open spec fn from_spec(value: ClockTime) -> Self {
        ClockTimeResult { last_trusted: value, error: [None, None, None, None] }
    }
}

/// Bit of [`GameData`]'s flags set while the ventilation needs a reset.
pub const VENTILATION_NEEDS_RESET_FLAG: u8 = 1;

/// Bit of [`GameData`]'s flags set while the flashlight is on.
pub const FLASHLIGHT_FLAG: u8 = 2;

/// Bit of [`GameData`]'s flags set while door 0 is closed; door `d` uses this bit shifted
/// left by `d`, in order from left to right.
pub const DOOR0_CLOSED_FLAG: u8 = 4;

/// The flag bit of door `door`.
pub open spec fn door_mask(door: u8) -> u8 {
    DOOR0_CLOSED_FLAG << door
}

/// Some bit of `mask` is set in `flags`.
pub open spec fn has_flag(flags: u8, mask: u8) -> bool {
    flags & mask != 0
}

/// This is the type which actually stores the data we have about the gamestate
#[derive(Debug, Clone, Copy, PartialEq, Eq, Hash)]
pub struct GameData {
    pub flags: u8,
    pub time: ClockTimeResult,
    pub next_ff_show: ClockTime,
}

impl Default for GameData {
    fn default() -> (g: Self)
        ensures
            g.is_fresh(),
    {
        Self::new()
    }
}

impl GameData {
    /// No flag is set, no clock error is recorded and both clocks read zero.
    pub open spec fn is_fresh(self) -> bool {
        &&& self.flags == 0
        &&& self.time.last_trusted == ClockTime::new_spec(0)
        &&& self.time.error@ == seq![None::<ReadNumberError>, None, None, None]
        &&& self.next_ff_show == ClockTime::new_spec(0)
    }

    pub fn new() -> (g: Self)
        ensures
            g.is_fresh(),
    {
        Self {
            flags: 0,
            time: ClockTimeResult { last_trusted: ClockTime::new(0), error: [None, None, None, None] },
            next_ff_show: ClockTime::new(0),
        }
    }

    pub fn is_ventilation_reset_needed(&self) -> (b: bool)
        ensures
            b == has_flag(self.flags, VENTILATION_NEEDS_RESET_FLAG),
    {
        (self.flags & VENTILATION_NEEDS_RESET_FLAG) != 0
    }

    pub fn mark_ventilation_has_been_reset<const N: usize>(
        &mut self,
        history: &mut GameStateHistory<N>,
    )
        requires
            old(history).wf(),
            old(history).view().len() < usize::MAX,
        ensures
            final(self).flags == old(self).flags & !VENTILATION_NEEDS_RESET_FLAG,
            final(self).time == old(self).time,
            final(self).next_ff_show == old(self).next_ff_show,
            final(history).wf(),
            records_appended(
                old(history).view(),
                final(history).view(),
                seq![GameStateDelta::VentilationResetNeeded(false)],
            ),
    {
        self.flags = self.flags & !VENTILATION_NEEDS_RESET_FLAG;
        history.record(GameStateDelta::VentilationResetNeeded(false));
    }

    pub fn mark_ventilation_needs_reset<const N: usize>(
        &mut self,
        history: &mut GameStateHistory<N>,
    )
        requires
            old(history).wf(),
            old(history).view().len() < usize::MAX,
        ensures
            final(self).flags == old(self).flags | VENTILATION_NEEDS_RESET_FLAG,
            final(self).time == old(self).time,
            final(self).next_ff_show == old(self).next_ff_show,
            final(history).wf(),
            records_appended(
                old(history).view(),
                final(history).view(),
                seq![GameStateDelta::VentilationResetNeeded(true)],
            ),
    {
        self.flags = self.flags | VENTILATION_NEEDS_RESET_FLAG;
        history.record(GameStateDelta::VentilationResetNeeded(true));
    }

    pub fn is_flashlight_on(&self) -> (b: bool)
        ensures
            b == has_flag(self.flags, FLASHLIGHT_FLAG),
    {
        (self.flags & FLASHLIGHT_FLAG) != 0
    }

    pub fn mark_flashlight_off<const N: usize>(&mut self, history: &mut GameStateHistory<N>)
        requires
            old(history).wf(),
            old(history).view().len() < usize::MAX,
        ensures
            final(self).flags == old(self).flags & !FLASHLIGHT_FLAG,
            final(self).time == old(self).time,
            final(self).next_ff_show == old(self).next_ff_show,
            final(history).wf(),
            records_appended(
                old(history).view(),
                final(history).view(),
                seq![GameStateDelta::FlashlightOn(false)],
            ),
    {
        self.flags = self.flags & !FLASHLIGHT_FLAG;
        history.record(GameStateDelta::FlashlightOn(false));
    }

    pub fn mark_flashlight_on<const N: usize>(&mut self, history: &mut GameStateHistory<N>)
        requires
            old(history).wf(),
            old(history).view().len() < usize::MAX,
        ensures
            final(self).flags == old(self).flags | FLASHLIGHT_FLAG,
            final(self).time == old(self).time,
            final(self).next_ff_show == old(self).next_ff_show,
            final(history).wf(),
            records_appended(
                old(history).view(),
                final(history).view(),
                seq![GameStateDelta::FlashlightOn(true)],
            ),
    {
        self.flags = self.flags | FLASHLIGHT_FLAG;
        history.record(GameStateDelta::FlashlightOn(true));
    }

    pub fn is_door_closed(&self, door: u8) -> (b: bool)
        requires
            door < 8,
        ensures
            b == has_flag(self.flags, door_mask(door)),
    {
        (self.flags & (DOOR0_CLOSED_FLAG << door)) != 0
    }

    pub fn mark_door_open<const N: usize>(&mut self, door: u8, history: &mut GameStateHistory<N>)
        requires
            door < 8,
            old(history).wf(),
            old(history).view().len() < usize::MAX,
        ensures
            final(self).flags == old(self).flags & !door_mask(door),
            final(self).time == old(self).time,
            final(self).next_ff_show == old(self).next_ff_show,
            final(history).wf(),
            records_appended(
                old(history).view(),
                final(history).view(),
                seq![GameStateDelta::DoorClosed(door, false)],
            ),
    {
        self.flags = self.flags & !(DOOR0_CLOSED_FLAG << door);
        history.record(GameStateDelta::DoorClosed(door, false));
    }

    pub fn mark_door_closed<const N: usize>(
        &mut self,
        door: u8,
        history: &mut GameStateHistory<N>,
    )
        requires
            door < 8,
            old(history).wf(),
            old(history).view().len() < usize::MAX,
        ensures
            final(self).flags == old(self).flags | door_mask(door),
            final(self).time == old(self).time,
            final(self).next_ff_show == old(self).next_ff_show,
            final(history).wf(),
            records_appended(
                old(history).view(),
                final(history).view(),
                seq![GameStateDelta::DoorClosed(door, true)],
            ),
    {
        self.flags = self.flags | (DOOR0_CLOSED_FLAG << door);
        history.record(GameStateDelta::DoorClosed(door, true));
    }
}


/// Setting flag bits `m` makes them read as set, clearing them makes them read as clear, and
/// flag bits `other` that share no bit with `m` read as before either way.
pub proof fn lemma_set_flag_reads(flags: u8, m: u8, other: u8)
    requires
        m != 0,
        m & other == 0,
    ensures
        has_flag(flags | m, m),
        !has_flag(flags & !m, m),
        has_flag(flags | m, other) == has_flag(flags, other),
        has_flag(flags & !m, other) == has_flag(flags, other),
{
    assert((flags | m) & m != 0) by (bit_vector)
        requires
            m != 0,
    ;
    assert((flags & !m) & m == 0) by (bit_vector);
    assert(((flags | m) & other != 0) == (flags & other != 0)) by (bit_vector)
        requires
            m & other == 0,
    ;
    assert(((flags & !m) & other != 0) == (flags & other != 0)) by (bit_vector)
        requires
            m & other == 0,
    ;
}

/// The ventilation, flashlight and door flags of doors `0..6` are single bits, pairwise apart.
pub proof fn lemma_flag_masks_apart(d: u8, e: u8)
    requires
        d < 6,
        e < 6,
    ensures
        door_mask(d) != 0,
        d != e ==> door_mask(d) & door_mask(e) == 0,
        door_mask(d) & VENTILATION_NEEDS_RESET_FLAG == 0,
        door_mask(d) & FLASHLIGHT_FLAG == 0,
        VENTILATION_NEEDS_RESET_FLAG & door_mask(d) == 0,
        FLASHLIGHT_FLAG & door_mask(d) == 0,
        VENTILATION_NEEDS_RESET_FLAG & FLASHLIGHT_FLAG == 0,
        FLASHLIGHT_FLAG & VENTILATION_NEEDS_RESET_FLAG == 0,
{
    assert(4u8 << d != 0) by (bit_vector)
        requires
            d < 6,
    ;
    assert(d != e ==> (4u8 << d) & (4u8 << e) == 0) by (bit_vector)
        requires
            d < 6,
            e < 6,
    ;
    assert((4u8 << d) & 1u8 == 0 && (4u8 << d) & 2u8 == 0 && 1u8 & (4u8 << d) == 0 && 2u8 & (4u8
        << d) == 0) by (bit_vector)
        requires
            d < 6,
    ;
    assert(1u8 & 2u8 == 0 && 2u8 & 1u8 == 0) by (bit_vector);
}

/// Doors 6 and 7 have no flag bit left in a byte: their flag is empty.
pub proof fn lemma_high_door_mask_empty(d: u8)
    requires
        6 <= d < 8,
    ensures
        door_mask(d) == 0,
{
    assert(4u8 << d == 0) by (bit_vector)
        requires
            6 <= d < 8,
    ;
}

/// What state we are in (office, checking cameras, ducts, vents)
/// The metadata about the state (what part of the office, which camera)
/// Information about the current state that can tell us how to interpret information
#[derive(Debug, Clone, Copy, PartialEq, Eq, Hash, Structural)]
pub enum StateData {
    Office(OfficeData),
    Camera(CameraData),
    Vent(VentData),
    Duct(DuctData),
}

/// The state a [`StateData`] belongs to.
pub open spec fn state_of(d: StateData) -> State {
    match d {
        StateData::Office(_) => State::Office,
        StateData::Camera(_) => State::Camera,
        StateData::Vent(_) => State::Vent,
        StateData::Duct(_) => State::Duct,
    }
}

/// The data we start a state with when we enter it.
pub open spec fn initial_state_data(s: State) -> StateData {
    match s {
        State::Office => StateData::Office(OfficeData { office_yaw: 0, is_nmbb_standing: false }),
        State::Camera => StateData::Camera(CameraData { camera: Camera::WestHall }),
        State::Vent => StateData::Vent(VentData { vent_snare: Vent::Inactive }),
        State::Duct => StateData::Duct(DuctData { closed_duct: Duct::West, audio_lure: IVec2 { x: 0, y: 0 } }),
    }
}

impl StateData {
    pub fn state(&self) -> (s: State)
        ensures
            s == state_of(*self),
    {
        match self {
            StateData::Office(_) => State::Office,
            StateData::Camera(_) => State::Camera,
            StateData::Vent(_) => State::Vent,
            StateData::Duct(_) => State::Duct,
        }
    }

    /// The data we start state `s` with when we enter it
    pub fn initial(s: State) -> (d: Self)
        ensures
            d == initial_state_data(s),
    {
        match s {
            State::Office => StateData::Office(OfficeData { office_yaw: 0, is_nmbb_standing: false }),
            State::Camera => StateData::Camera(CameraData { camera: Camera::WestHall }),
            State::Vent => StateData::Vent(VentData { vent_snare: Vent::Inactive }),
            State::Duct => StateData::Duct(
                DuctData { closed_duct: Duct::West, audio_lure: IVec2::new(0, 0) },
            ),
        }
    }
}

/// Everything the player knows of the game, and the log of how it came to know it.
#[derive(Debug)]
pub struct GameState<const BLOCK_CAP: usize> {
    pub state: StateData,
    pub game: GameData,
    pub hist: GameStateHistory<BLOCK_CAP>,
}

impl<const BLOCK_CAP: usize> GameState<BLOCK_CAP> {
    pub fn new() -> (g: Self)
        ensures
            g.state == initial_state_data(State::Office),
            g.game.is_fresh(),
            g.hist.wf(),
            g.hist.view().len() == 0,
    {
        Self {
            state: StateData::Office(OfficeData { office_yaw: 0, is_nmbb_standing: false }),
            game: GameData::new(),
            hist: GameStateHistory::new(),
        }
    }

    pub fn state(&self) -> (s: State)
        ensures
            s == state_of(self.state),
    {
        self.state.state()
    }
}


/// These enable us to put the buttons in a list and choose from them instead of just using the
/// literal positions
#[derive(Debug, Clone, Copy, PartialEq, Eq, Hash, Structural)]
pub enum Button {
    Mask,
    ResetVent,
    /// WestHall
    Cam01,
    /// EastHall
    Cam02,
    /// Closet
    Cam03,
    /// Kitchen
    Cam04,
    /// PirateCove
    Cam05,
    /// ShowtimeStage
    Cam06,
    /// PrizeCounter
    Cam07,
    /// PartsAndServices
    Cam08,
    CameraSystem,
    VentSystem,
    DuctSystem,
    SnareLeft,
    SnareTop,
    SnareRight,
    DuctLeft,
    DuctRight,
}

/// Where each button is on the screen.
pub open spec fn button_pos(b: Button) -> (int, int) {
    match b {
        Button::Mask => (682, 1006),
        Button::ResetVent => (1700, 915),
        Button::Cam01 => (1133, 903),
        Button::Cam02 => (1382, 903),
        Button::Cam03 => (1067, 825),
        Button::Cam04 => (1491, 765),
        Button::Cam05 => (1122, 670),
        Button::Cam06 => (1422, 590),
        Button::Cam07 => (1278, 503),
        Button::Cam08 => (988, 495),
        Button::CameraSystem => (1331, 153),
        Button::VentSystem => (1331, 263),
        Button::DuctSystem => (1331, 373),
        Button::SnareLeft => (548, 645),
        Button::SnareTop => (650, 536),
        Button::SnareRight => (747, 645),
        Button::DuctLeft => (331, 844),
        Button::DuctRight => (1016, 844),
    }
}

/// The button that shows camera `c`.
pub open spec fn camera_button(c: Camera) -> Button {
    match c {
        Camera::WestHall => Button::Cam01,
        Camera::EastHall => Button::Cam02,
        Camera::Closet => Button::Cam03,
        Camera::Kitchen => Button::Cam04,
        Camera::PirateCove => Button::Cam05,
        Camera::ShowtimeStage => Button::Cam06,
        Camera::PrizeCounter => Button::Cam07,
        Camera::PartsAndServices => Button::Cam08,
    }
}

/// The button that opens the system showing state `s` (there is none for the office).
pub open spec fn system_button(s: State) -> Button {
    match s {
        State::Camera => Button::CameraSystem,
        State::Vent => Button::VentSystem,
        _ => Button::DuctSystem,
    }
}

impl Button {
    /// Pick the button position from the list of button positions
    pub fn pos(self) -> (p: IVec2)
        ensures
            p.x == button_pos(self).0,
            p.y == button_pos(self).1,
    {
        match self {
            Button::Mask => IVec2::new(682, 1006),
            Button::ResetVent => IVec2::new(1700, 915),
            Button::Cam01 => IVec2::new(1133, 903),
            Button::Cam02 => IVec2::new(1382, 903),
            Button::Cam03 => IVec2::new(1067, 825),
            Button::Cam04 => IVec2::new(1491, 765),
            Button::Cam05 => IVec2::new(1122, 670),
            Button::Cam06 => IVec2::new(1422, 590),
            Button::Cam07 => IVec2::new(1278, 503),
            Button::Cam08 => IVec2::new(988, 495),
            Button::CameraSystem => IVec2::new(1331, 153),
            Button::VentSystem => IVec2::new(1331, 263),
            Button::DuctSystem => IVec2::new(1331, 373),
            Button::SnareLeft => IVec2::new(548, 645),
            Button::SnareTop => IVec2::new(650, 536),
            Button::SnareRight => IVec2::new(747, 645),
            Button::DuctLeft => IVec2::new(331, 844),
            Button::DuctRight => IVec2::new(1016, 844),
        }
    }

    /// The button that opens the system showing `value`; there is no "office system" button.
    pub fn from_state(value: State) -> (b: Self)
        requires
            value != State::Office,
        ensures
            b == system_button(value),
    {
        match value {
            State::Camera => Button::CameraSystem,
            State::Vent => Button::VentSystem,
            _ => Button::DuctSystem,
        }
    }
}

impl From<Camera> for Button {
    fn from(value: Camera) -> (b: Self) {
        match value {
            Camera::WestHall => Button::Cam01,
            Camera::EastHall => Button::Cam02,
            Camera::Closet => Button::Cam03,
            Camera::Kitchen => Button::Cam04,
            Camera::PirateCove => Button::Cam05,
            Camera::ShowtimeStage => Button::Cam06,
            Camera::PrizeCounter => Button::Cam07,
            Camera::PartsAndServices => Button::Cam08,
        }
    }
}

impl FromSpecImpl<Camera> for Button {
    open spec fn obeys_from_spec() -> bool {
        true
    }

    open spec fn from_spec(value: Camera) -> Self {
        camera_button(value)
    }
}

/// Why the game state could not be updated.
#[derive(Debug, Clone, Copy, PartialEq, Eq, Hash, Structural)]
pub enum UpdateStateError {
    NoMatchingCameraInCameraState,
}

impl UpdateStateError {
    /// What went wrong, in words.
    pub fn message(&self) -> (m: &'static str)
        ensures
            m@ == "camera state identified, but no active camera found"@,
    {
        match self {
            UpdateStateError::NoMatchingCameraInCameraState => "camera state identified, but no active camera found",
        }
    }
}

/// Index of the last largest of the first `n` counts (`Iterator::max_by_key` keeps the last of
/// equal maxima).
pub open spec fn last_argmax(counts: Seq<i32>, n: nat) -> int
    decreases n,
{
    if n <= 1 {
        0
    } else {
        let prev = last_argmax(counts, (n - 1) as nat);
        if counts[n - 1] >= counts[prev] {
            n - 1
        } else {
            prev
        }
    }
}

/// Matching samples a button needs before we believe it is lit.
pub const MIN_MATCHING_SAMPLES: i32 = 5;

/// The systems whose buttons are tested, in order.
pub open spec fn system_at(i: int) -> State {
    if i == 0 {
        State::Camera
    } else if i == 1 {
        State::Vent
    } else {
        State::Duct
    }
}

/// The state the screen shows, given how many samples of each system button
/// (camera, vent, duct) matched its lit color.
pub open spec fn state_from_counts(sys_counts: Seq<i32>) -> State {
    let best = last_argmax(sys_counts, 3);
    if sys_counts[best] >= MIN_MATCHING_SAMPLES {
        system_at(best)
    } else {
        State::Office
    }
}

/// The camera shown, given how many samples of each camera button matched its lit color.
pub open spec fn camera_from_counts(cam_counts: Seq<i32>) -> Option<Camera> {
    let best = last_argmax(cam_counts, 8);
    if cam_counts[best] >= MIN_MATCHING_SAMPLES {
        Some(camera_at(best))
    } else {
        None
    }
}

/// What [`GameState::update_state`] makes of the state data `old`, given the button counts:
/// the new state data, the changes to record, and the result.
pub open spec fn update_state_spec(old: StateData, sys_counts: Seq<i32>, cam_counts: Seq<i32>) -> (
    StateData,
    Seq<GameStateDelta>,
    Result<(), UpdateStateError>,
) {
    let new_state = state_from_counts(sys_counts);
    let changing = state_of(old) != new_state;
    let mid = if changing {
        initial_state_data(new_state)
    } else {
        old
    };
    let deltas0 = if changing {
        seq![GameStateDelta::State(new_state)]
    } else {
        Seq::empty()
    };
    match mid {
        StateData::Camera(cd) => match camera_from_counts(cam_counts) {
            Some(camera) => if changing || cd.camera != camera {
                (
                    StateData::Camera(CameraData { camera }),
                    deltas0.push(GameStateDelta::Camera(camera)),
                    Ok(()),
                )
            } else {
                (mid, deltas0, Ok(()))
            },
            None => (mid, deltas0, Err(UpdateStateError::NoMatchingCameraInCameraState)),
        },
        _ => (mid, deltas0, Ok(())),
    }
}

/// Index of the last largest count.
fn last_argmax_exec(counts: &[i32]) -> (best: usize)
    requires
        counts@.len() >= 1,
    ensures
        best == last_argmax(counts@, counts@.len() as nat),
        best < counts@.len(),
{
    let mut best: usize = 0;
    let mut i: usize = 1;
    while i < counts.len()
        invariant
            1 <= i <= counts@.len(),
            best == last_argmax(counts@, i as nat),
            best < i,
        decreases counts@.len() - i,
    {
        if counts[i] >= counts[best] {
            best = i;
        }
        i = i + 1;
    }
    best
}

/// The camera at position `i` of the list of cameras
fn camera_at_exec(i: usize) -> (c: Camera)
    ensures
        c == camera_at(i as int),
{
    if i == 0 {
        Camera::WestHall
    } else if i == 1 {
        Camera::EastHall
    } else if i == 2 {
        Camera::Closet
    } else if i == 3 {
        Camera::Kitchen
    } else if i == 4 {
        Camera::PirateCove
    } else if i == 5 {
        Camera::ShowtimeStage
    } else if i == 6 {
        Camera::PrizeCounter
    } else {
        Camera::PartsAndServices
    }
}

impl<const BLOCK_CAP: usize> GameState<BLOCK_CAP> {
    /// Works out the state the screen shows from how many samples of each system button
    /// (camera, vent, duct) and, in the camera state, of each camera button matched its lit
    /// color; records every change.
    pub fn update_state(&mut self, sys_counts: [i32; 3], cam_counts: [i32; 8]) -> (r: Result<
        (),
        UpdateStateError,
    >)
        requires
            old(self).hist.wf(),
            old(self).hist.view().len() + 2 <= usize::MAX,
        ensures
            final(self).hist.wf(),
            final(self).state == update_state_spec(old(self).state, sys_counts@, cam_counts@).0,
            records_appended(
                old(self).hist.view(),
                final(self).hist.view(),
                update_state_spec(old(self).state, sys_counts@, cam_counts@).1,
            ),
            r == update_state_spec(old(self).state, sys_counts@, cam_counts@).2,
            final(self).game == old(self).game,
    {
        let ghost v0 = self.hist.view();
        let best = last_argmax_exec(&sys_counts);
        let mut new_state = State::Office;
        if sys_counts[best] >= MIN_MATCHING_SAMPLES {
            new_state = if best == 0 {
                State::Camera
            } else if best == 1 {
                State::Vent
            } else {
                State::Duct
            };
        }
        let state_changing = self.state() != new_state;
        if state_changing {
            self.hist.record(GameStateDelta::State(new_state));
            self.state = StateData::initial(new_state);
        }
        let ghost v1 = self.hist.view();
        proof {
            if !state_changing {
                assert(v1.take(v0.len() as int) =~= v0);
            }
        }
        if let StateData::Camera(cd) = self.state {
            let best_cam = last_argmax_exec(&cam_counts);
            if cam_counts[best_cam] >= MIN_MATCHING_SAMPLES {
                let camera = camera_at_exec(best_cam);
                if state_changing || cd.camera != camera {
                    self.hist.record(GameStateDelta::Camera(camera));
                    self.state = StateData::Camera(CameraData { camera });
                    proof {
                        let d0 = update_state_spec(old(self).state, sys_counts@, cam_counts@).1;
                        if state_changing {
                            crate::history::lemma_appended_twice(
                                v0,
                                v1,
                                self.hist.view(),
                                seq![GameStateDelta::State(new_state)],
                                seq![GameStateDelta::Camera(camera)],
                            );
                            assert(seq![GameStateDelta::State(new_state)] + seq![
                                GameStateDelta::Camera(camera),
                            ] =~= d0);
                        } else {
                            assert(Seq::<GameStateDelta>::empty() + seq![
                                GameStateDelta::Camera(camera),
                            ] =~= d0);
                            crate::history::lemma_appended_twice(
                                v0,
                                v1,
                                self.hist.view(),
                                Seq::empty(),
                                seq![GameStateDelta::Camera(camera)],
                            );
                        }
                    }
                }
            } else {
                return Err(UpdateStateError::NoMatchingCameraInCameraState);
            }
        }
        Ok(())
    }
}


/// Whatever the state was, an update leaves the game in the state the system buttons show.
pub proof fn lemma_update_lands_on_counted_state(
    old: StateData,
    sys_counts: Seq<i32>,
    cam_counts: Seq<i32>,
)
    ensures
        state_of(update_state_spec(old, sys_counts, cam_counts).0) == state_from_counts(sys_counts),
{
}

/// Updating twice from the same counts changes nothing the second time: no new state, no new
/// records.
pub proof fn lemma_update_state_idempotent(old: StateData, sys_counts: Seq<i32>, cam_counts: Seq<i32>)
    requires
        update_state_spec(old, sys_counts, cam_counts).2 is Ok,
    ensures
        update_state_spec(update_state_spec(old, sys_counts, cam_counts).0, sys_counts, cam_counts)
            == (update_state_spec(old, sys_counts, cam_counts).0, Seq::<GameStateDelta>::empty(), Ok::<
            (),
            UpdateStateError,
        >(())),
{
    let first = update_state_spec(old, sys_counts, cam_counts);
    let second = update_state_spec(first.0, sys_counts, cam_counts);
    assert(second.1 =~= Seq::<GameStateDelta>::empty());
}

/// `i` is the last of the largest of the first `n` counts.
pub open spec fn is_last_largest(counts: Seq<i32>, n: int, i: int) -> bool {
    &&& 0 <= i < n
    &&& forall|j: int| 0 <= j < n ==> #[trigger] counts[j] <= counts[i]
    &&& forall|j: int| i < j < n ==> #[trigger] counts[j] < counts[i]
}

proof fn lemma_last_argmax_is_last_largest(counts: Seq<i32>, n: nat)
    requires
        1 <= n <= counts.len(),
    ensures
        is_last_largest(counts, n as int, last_argmax(counts, n)),
    decreases n,
{
    if n > 1 {
        lemma_last_argmax_is_last_largest(counts, (n - 1) as nat);
    }
}

/// The cameras are listed in the order of their buttons: the camera at position `i` is the one
/// whose index (its button, `CAM 01` being 0) is `i`, its button is the `i`th camera button on
/// screen, and every camera is at its own index. Likewise the systems tested are camera, vent
/// and duct, in the order of their buttons from the top.
pub proof fn lemma_camera_list_follows_buttons(c: Camera)
    ensures
        forall|i: int| 0 <= i < 8 ==> #[trigger] camera_index(camera_at(i)) == i,
        forall|i: int|
            0 <= i < 8 ==> button_pos(camera_button(#[trigger] camera_at(i))) == seq![
                (1133int, 903int),
                (1382, 903),
                (1067, 825),
                (1491, 765),
                (1122, 670),
                (1422, 590),
                (1278, 503),
                (988, 495),
            ][i],
        forall|i: int|
            0 <= i < 3 ==> state_index(#[trigger] system_at(i)) == i && button_pos(
                system_button(system_at(i)),
            ) == seq![(1331int, 153int), (1331, 263), (1331, 373)][i],
        camera_at(camera_index(c)) == c,
        0 <= camera_index(c) < 8,
{
}

/// The state an update arrives at is the one whose button is lit the most (the last of equal
/// maxima), with at least [`MIN_MATCHING_SAMPLES`] matching samples; with no system button that
/// lit, it is the office. In the camera state, a successful update shows the camera whose
/// button is lit the most (the last of equal maxima), with at least [`MIN_MATCHING_SAMPLES`].
pub proof fn lemma_update_follows_the_brightest_buttons(
    old: StateData,
    sys_counts: Seq<i32>,
    cam_counts: Seq<i32>,
)
    requires
        sys_counts.len() == 3,
        cam_counts.len() == 8,
    ensures
        state_of(update_state_spec(old, sys_counts, cam_counts).0) == State::Office ==> forall|j: int|
            0 <= j < 3 ==> #[trigger] sys_counts[j] < MIN_MATCHING_SAMPLES,
        state_of(update_state_spec(old, sys_counts, cam_counts).0) != State::Office ==> {
            let i = state_index(state_of(update_state_spec(old, sys_counts, cam_counts).0));
            &&& is_last_largest(sys_counts, 3, i)
            &&& sys_counts[i] >= MIN_MATCHING_SAMPLES
        },
        update_state_spec(old, sys_counts, cam_counts).2 is Ok ==> (update_state_spec(
            old,
            sys_counts,
            cam_counts,
        ).0 matches StateData::Camera(cd) ==> {
            &&& is_last_largest(cam_counts, 8, camera_index(cd.camera))
            &&& cam_counts[camera_index(cd.camera)] >= MIN_MATCHING_SAMPLES
        }),
{
    lemma_last_argmax_is_last_largest(sys_counts, 3);
    lemma_last_argmax_is_last_largest(cam_counts, 8);
    let b = last_argmax(sys_counts, 3);
    let c = last_argmax(cam_counts, 8);
    assert(camera_index(camera_at(c)) == c);
    if state_of(update_state_spec(old, sys_counts, cam_counts).0) == State::Office {
        assert forall|j: int| 0 <= j < 3 implies #[trigger] sys_counts[j] < MIN_MATCHING_SAMPLES by {
            assert(sys_counts[j] <= sys_counts[b]);
        }
    }
}

/// Where the vent warning shows in the office.
pub open spec fn office_vent_warning_pos() -> IVec2 {
    IVec2 { x: 1580, y: 1040 }
}

/// Where the vent warning shows on the monitor.
pub open spec fn camera_vent_warning_pos() -> IVec2 {
    IVec2 { x: 1563, y: 892 }
}

/// Where the vent warning shows in state `s`.
pub open spec fn vent_warning_pos(s: State) -> IVec2 {
    if s == State::Office {
        office_vent_warning_pos()
    } else {
        camera_vent_warning_pos()
    }
}

/// Red deviation above which the vent warning is lit.
pub const VENT_WARNING_RED_DEV: i32 = 35;

/// The vent warning is lit on the capture, in state `s`.
pub open spec fn vent_warning_lit(sd: &ScreenData, s: State) -> bool {
    let c = sd.pixel(vent_warning_pos(s));
    channel_dev_spec(c.r as int, c.gray_spec()) > VENT_WARNING_RED_DEV
}

/// Both places of the vent warning can be read off the capture.
pub open spec fn vent_warning_readable(sd: &ScreenData) -> bool {
    &&& sd.pixel_ok(office_vent_warning_pos())
    &&& sd.pixel_ok(camera_vent_warning_pos())
}

/// What [`GameState::refresh_game_data`] makes of the state data and game data, given the
/// capture, the button counts and whether Nightmare Balloon Boy stands: the new state data,
/// the new game data, the changes to record, and the result.
pub open spec fn refresh_spec(
    old_state: StateData,
    old_game: GameData,
    sd: &ScreenData,
    sys_counts: Seq<i32>,
    cam_counts: Seq<i32>,
    nmbb_standing: bool,
) -> (StateData, GameData, Seq<GameStateDelta>, Result<(), UpdateStateError>) {
    let (st1, d1, r1) = update_state_spec(old_state, sys_counts, cam_counts);
    if r1 is Err {
        (st1, old_game, d1, r1)
    } else {
        let (game2, d2) = match read_game_clock_spec(sd) {
            Ok(t) => (
                GameData {
                    time: ClockTimeResult {
                        last_trusted: updated(old_game.time.last_trusted, t),
                        error: [None, None, None, None],
                    },
                    ..old_game
                },
                d1.push(GameStateDelta::Time(t)),
            ),
            Err(e) => (GameData { time: ClockTimeResult { error: e, ..old_game.time }, ..old_game }, d1),
        };
        let (game3, d3) = if vent_warning_lit(sd, state_of(st1)) {
            (
                GameData { flags: game2.flags | VENTILATION_NEEDS_RESET_FLAG, ..game2 },
                d2.push(GameStateDelta::VentilationResetNeeded(true)),
            )
        } else {
            (game2, d2)
        };
        match st1 {
            StateData::Office(od) => if od.is_nmbb_standing != nmbb_standing {
                (
                    StateData::Office(OfficeData { is_nmbb_standing: nmbb_standing, ..od }),
                    game3,
                    d3.push(GameStateDelta::NMBBStanding(nmbb_standing)),
                    Ok(()),
                )
            } else {
                (st1, game3, d3, Ok(()))
            },
            _ => (st1, game3, d3, Ok(())),
        }
    }
}

/// After a successful refresh in the office, the stored standing of Nightmare Balloon Boy is
/// the one just read; when it changed from what was stored, the change is recorded last.
pub proof fn lemma_refresh_keeps_the_nmbb_reading(
    old_state: StateData,
    old_game: GameData,
    sd: &ScreenData,
    sys_counts: Seq<i32>,
    cam_counts: Seq<i32>,
    nmbb_standing: bool,
)
    ensures
        ({
            let (st, game, deltas, res) = refresh_spec(
                old_state,
                old_game,
                sd,
                sys_counts,
                cam_counts,
                nmbb_standing,
            );
            &&& res is Ok ==> (st matches StateData::Office(od) ==> od.is_nmbb_standing
                == nmbb_standing)
            &&& (res is Ok && st is Office) ==> (old_state matches StateData::Office(od0) ==> (
            od0.is_nmbb_standing != nmbb_standing ==> deltas.len() > 0 && deltas.last()
                == GameStateDelta::NMBBStanding(nmbb_standing)))
        }),
{
}

impl<const BLOCK_CAP: usize> GameState<BLOCK_CAP> {
    /// Whether the vent warning is lit on the capture
    pub fn does_ventilation_need_reset(&self, screen_data: &ScreenData) -> (b: bool)
        requires
            vent_warning_readable(screen_data),
        ensures
            b == vent_warning_lit(screen_data, state_of(self.state)),
    {
        let pos = match self.state() {
            State::Office => IVec2::new(1580, 1040),
            _ => IVec2::new(1563, 892),
        };
        screen_data.pixel_color_at(pos).red_dev() > VENT_WARNING_RED_DEV
    }

    /// Updates all known game information from a capture: the state (from the button counts,
    /// see [`Self::update_state`]), the clock, the vent warning and, in the office, whether
    /// Nightmare Balloon Boy stands.
    pub fn refresh_game_data(
        &mut self,
        screen_data: &ScreenData,
        sys_counts: [i32; 3],
        cam_counts: [i32; 8],
        nmbb_standing: bool,
    ) -> (r: Result<(), UpdateStateError>)
        requires
            old(self).hist.wf(),
            old(self).hist.view().len() + 5 <= usize::MAX,
            old(self).game.time.last_trusted.pings_since_change < u32::MAX,
            clock_readable(screen_data),
            vent_warning_readable(screen_data),
        ensures
            final(self).hist.wf(),
            ({
                let (st, game, deltas, res) = refresh_spec(
                    old(self).state,
                    old(self).game,
                    screen_data,
                    sys_counts@,
                    cam_counts@,
                    nmbb_standing,
                );
                &&& final(self).state == st
                &&& final(self).game == game
                &&& records_appended(old(self).hist.view(), final(self).hist.view(), deltas)
                &&& r == res
            }),
    {
        let ghost v0 = self.hist.view();
        let r1 = self.update_state(sys_counts, cam_counts);
        let ghost d1 = update_state_spec(old(self).state, sys_counts@, cam_counts@).1;
        if r1.is_err() {
            return r1;
        }
        let ghost v1 = self.hist.view();
        let ghost mut d = d1;
        match screen_data.read_game_clock() {
            Ok(time) => {
                self.game.time.last_trusted.update_time(time);
                self.game.time.error = [None, None, None, None];
                let ghost va = self.hist.view();
                self.hist.record(GameStateDelta::Time(time));
                proof {
                    crate::history::lemma_appended_twice(v0, va, self.hist.view(), d, seq![GameStateDelta::Time(time)]);
                    assert(d + seq![GameStateDelta::Time(time)] =~= d.push(GameStateDelta::Time(time)));
                    d = d.push(GameStateDelta::Time(time));
                }
            },
            Err(e) => self.game.time.error = e,
        }
        if self.does_ventilation_need_reset(screen_data) {
            let ghost va = self.hist.view();
            self.game.mark_ventilation_needs_reset(&mut self.hist);
            proof {
                crate::history::lemma_appended_twice(v0, va, self.hist.view(), d, seq![GameStateDelta::VentilationResetNeeded(true)]);
                assert(d + seq![GameStateDelta::VentilationResetNeeded(true)] =~= d.push(GameStateDelta::VentilationResetNeeded(true)));
                d = d.push(GameStateDelta::VentilationResetNeeded(true));
            }
        }
        if let StateData::Office(od) = self.state {
            if od.is_nmbb_standing != nmbb_standing {
                self.state = StateData::Office(OfficeData { is_nmbb_standing: nmbb_standing, ..od });
                let ghost va = self.hist.view();
                self.hist.record(GameStateDelta::NMBBStanding(nmbb_standing));
                proof {
                    crate::history::lemma_appended_twice(v0, va, self.hist.view(), d, seq![GameStateDelta::NMBBStanding(nmbb_standing)]);
                    assert(d + seq![GameStateDelta::NMBBStanding(nmbb_standing)] =~= d.push(GameStateDelta::NMBBStanding(nmbb_standing)));
                }
            }
        }
        Ok(())
    }
}


/// Row of the office scanned for the lamp.
pub const LAMP_SCAN_Y: i32 = 66;

/// First column of the office scanned for the lamp.
pub const LAMP_SCAN_START: i32 = 723;

/// Gray level above which a pixel may be the lamp, exclusive.
pub const LAMP_THRESHOLD: u8 = 200;

/// The pixel at column `x` of the scanned row.
pub open spec fn lamp_pos(x: int) -> IVec2 {
    IVec2 { x: x as i32, y: LAMP_SCAN_Y }
}

/// Column `x` of the scanned row is the lamp: it is bright, and all its sample points are
/// within 20 gray levels of white.
pub open spec fn lamp_hit(sd: &ScreenData, x: int) -> bool {
    &&& sd.pixel(lamp_pos(x)).gray_spec() > LAMP_THRESHOLD
    &&& test_samples_gray_spec(sd, lamp_pos(x), 255, 20) == 5
}

/// The first column from `x` on, within the scanned strip, that is the lamp.
pub open spec fn first_lamp_from(sd: &ScreenData, x: int) -> Option<int>
    decreases LAMP_SCAN_START + LAMP_SCAN_WIDTH - x,
{
    if x >= LAMP_SCAN_START + LAMP_SCAN_WIDTH {
        None
    } else if lamp_hit(sd, x) {
        Some(x)
    } else {
        first_lamp_from(sd, x + 1)
    }
}

/// The first column from `x0` on that is the lamp is the least column of the strip, at or
/// after `x0`, that is the lamp; there is none only when no such column is.
pub proof fn lemma_first_lamp_is_least(sd: &ScreenData, x0: int)
    ensures
        first_lamp_from(sd, x0) is None <==> forall|x: int|
            x0 <= x < LAMP_SCAN_START + LAMP_SCAN_WIDTH ==> !#[trigger] lamp_hit(sd, x),
        first_lamp_from(sd, x0) matches Some(x) ==> {
            &&& x0 <= x < LAMP_SCAN_START + LAMP_SCAN_WIDTH
            &&& lamp_hit(sd, x)
            &&& forall|y: int| x0 <= y < x ==> !#[trigger] lamp_hit(sd, y)
        },
    decreases LAMP_SCAN_START + LAMP_SCAN_WIDTH - x0,
{
    if x0 < LAMP_SCAN_START + LAMP_SCAN_WIDTH && !lamp_hit(sd, x0) {
        lemma_first_lamp_is_least(sd, x0 + 1);
        assert forall|x: int| x0 <= x < LAMP_SCAN_START + LAMP_SCAN_WIDTH && !lamp_hit(sd, x0)
            && (forall|z: int| x0 + 1 <= z < LAMP_SCAN_START + LAMP_SCAN_WIDTH ==> !#[trigger] lamp_hit(sd, z))
            implies !#[trigger] lamp_hit(sd, x) by {
            if x > x0 {
                assert(!lamp_hit(sd, x));
            }
        }
    }
}

/// The lamp scan covers the whole strip, columns 723 to 1307: the yaw found is that of the
/// leftmost lamp column of the strip, and none is found only when no column of it is the lamp.
pub proof fn lemma_lamp_scan_covers_the_strip(sd: &ScreenData)
    ensures
        LAMP_SCAN_START == 723 && LAMP_SCAN_START + LAMP_SCAN_WIDTH == 1308,
        first_lamp_from(sd, LAMP_SCAN_START as int) is None <==> forall|x: int|
            723 <= x < 1308 ==> !#[trigger] lamp_hit(sd, x),
        first_lamp_from(sd, LAMP_SCAN_START as int) matches Some(x) ==> {
            &&& 723 <= x < 1308
            &&& lamp_hit(sd, x)
            &&& forall|y: int| 723 <= y < x ==> !#[trigger] lamp_hit(sd, y)
        },
{
    lemma_first_lamp_is_least(sd, LAMP_SCAN_START as int);
}

/// Every pixel the lamp scan may read can be read.
pub open spec fn lamp_scan_readable(sd: &ScreenData) -> bool {
    forall|x: int|
        LAMP_SCAN_START <= x < LAMP_SCAN_START + LAMP_SCAN_WIDTH ==> {
            &&& #[trigger] sd.pixel_ok(lamp_pos(x))
            &&& sd.pixel(lamp_pos(x)).gray_spec() > LAMP_THRESHOLD ==> samples_readable(sd, lamp_pos(x))
        }
}

/// Where the mouse rests to look to the left of the office.
pub open spec fn look_left_pos() -> IVec2 {
    IVec2 { x: 8, y: 540 }
}

/// Where the mouse rests to look to the right of the office.
pub open spec fn look_right_pos() -> IVec2 {
    IVec2 { x: 1910, y: 540 }
}

/// How long turning around in the office takes, in milliseconds.
pub const LOOK_TURN_MS: u64 = 500;

impl OfficeData {
    /// For finding the yaw of the office: the first lamp column of the scanned strip, if any,
    /// becomes the yaw and is recorded.
    pub fn locate_office_lamp<const BLOCK_CAP: usize>(
        &mut self,
        screen_data: &ScreenData,
        history: &mut GameStateHistory<BLOCK_CAP>,
    )
        requires
            lamp_scan_readable(screen_data),
            old(history).wf(),
            old(history).view().len() < usize::MAX,
        ensures
            final(history).wf(),
            final(self).is_nmbb_standing == old(self).is_nmbb_standing,
            match first_lamp_from(screen_data, LAMP_SCAN_START as int) {
                Some(x) => {
                    &&& final(self).office_yaw == x - LAMP_SCAN_START
                    &&& records_appended(
                        old(history).view(),
                        final(history).view(),
                        seq![GameStateDelta::OfficeYaw((x - LAMP_SCAN_START) as u16)],
                    )
                },
                None => {
                    &&& final(self).office_yaw == old(self).office_yaw
                    &&& final(history).view() == old(history).view()
                },
            },
    {
        let mut x: i32 = LAMP_SCAN_START;
        while x < LAMP_SCAN_START + LAMP_SCAN_WIDTH
            invariant
                LAMP_SCAN_START <= x <= LAMP_SCAN_START + LAMP_SCAN_WIDTH,
                lamp_scan_readable(screen_data),
                first_lamp_from(screen_data, LAMP_SCAN_START as int) == first_lamp_from(
                    screen_data,
                    x as int,
                ),
                *self == *old(self),
                *history == *old(history),
                history.wf(),
                history.view().len() < usize::MAX,
            decreases LAMP_SCAN_START + LAMP_SCAN_WIDTH - x,
        {
            let pos = IVec2::new(x, LAMP_SCAN_Y);
            assert(screen_data.pixel_ok(lamp_pos(x as int)));
            if screen_data.pixel_color_at(pos).gray() > LAMP_THRESHOLD {
                if screen_data.test_samples_gray(pos, 255, 20) == 5 {
                    let yaw = (x - LAMP_SCAN_START) as u16;
                    self.office_yaw = yaw;
                    history.record(GameStateDelta::OfficeYaw(yaw));
                    return;
                }
            }
            x = x + 1;
        }
    }

    /// Assumes we are already in the office; records the mouse move and returns the inputs
    /// that turn to the left.
    pub fn look_left<const BLOCK_CAP: usize>(&mut self, history: &mut GameStateHistory<BLOCK_CAP>) -> (a:
        Vec<Action>)
        requires
            old(history).wf(),
            old(history).view().len() < usize::MAX,
        ensures
            *final(self) == *old(self),
            final(history).wf(),
            records_appended(
                old(history).view(),
                final(history).view(),
                seq![GameStateDelta::VirtualMouseMove { pos: look_left_pos() }],
            ),
            a@ == seq![Action::MouseGoto(look_left_pos()), Action::SleepMs(LOOK_TURN_MS)],
    {
        let mut a = history.sim_mouse_goto(IVec2::new(8, 540));
        a.push(Action::SleepMs(LOOK_TURN_MS));
        a
    }

    /// Assumes we are already in the office; records the mouse move and returns the inputs
    /// that turn to the right.
    pub fn look_right<const BLOCK_CAP: usize>(&mut self, history: &mut GameStateHistory<BLOCK_CAP>) -> (a:
        Vec<Action>)
        requires
            old(history).wf(),
            old(history).view().len() < usize::MAX,
        ensures
            *final(self) == *old(self),
            final(history).wf(),
            records_appended(
                old(history).view(),
                final(history).view(),
                seq![GameStateDelta::VirtualMouseMove { pos: look_right_pos() }],
            ),
            a@ == seq![Action::MouseGoto(look_right_pos()), Action::SleepMs(LOOK_TURN_MS)],
    {
        let mut a = history.sim_mouse_goto(IVec2::new(1910, 540));
        a.push(Action::SleepMs(LOOK_TURN_MS));
        a
    }
}

} // verus!
