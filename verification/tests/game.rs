use king_of_fnaf::clk::ClockTime;
use king_of_fnaf::color::ColorRgb;
use king_of_fnaf::comp_vis::{
    ScreenData, CLK_10SEC_X, CLK_DECISEC_X, CLK_MIN_X, CLK_SEC_X, CLK_Y,
    READ_NUMBER_SAMPLE_FLAGS, READ_NUMBER_SAMPLE_OFFSETS_X, READ_NUMBER_SAMPLE_OFFSETS_Y,
};
use king_of_fnaf::game_state::{
    Button, Camera, CameraData, ClockTimeResult, Duct, GameData, GameState, OfficeData, State,
    StateData, UpdateStateError, Vent, VentData, DOOR0_CLOSED_FLAG, FLASHLIGHT_FLAG,
    LAMP_SCAN_START, LAMP_SCAN_Y, LOOK_TURN_MS, VENTILATION_NEEDS_RESET_FLAG,
};
use king_of_fnaf::history::{GameStateDelta, GameStateHistory};
use king_of_fnaf::input::Action;
use king_of_fnaf::ivec2::IVec2;

const WIDTH: i32 = 1920;
const HEIGHT: i32 = 1080;

fn blank() -> Vec<u8> {
    vec![0u8; (WIDTH * HEIGHT * 4) as usize]
}

fn set_pixel(data: &mut [u8], x: i32, y: i32, c: ColorRgb) {
    let i = 4 * (y * WIDTH + x) as usize;
    data[i] = c.b;
    data[i + 1] = c.g;
    data[i + 2] = c.r;
}

fn paint_digit(data: &mut [u8], x: i32, y: i32, d: usize) {
    for s in 0..8 {
        let lit = (READ_NUMBER_SAMPLE_FLAGS[d] >> s) & 1 == 1;
        let v = if lit { 200 } else { 10 };
        set_pixel(
            data,
            x + READ_NUMBER_SAMPLE_OFFSETS_X[s],
            y + READ_NUMBER_SAMPLE_OFFSETS_Y[s],
            ColorRgb { r: v, g: v, b: v },
        );
    }
}

fn paint_clock(data: &mut [u8], m: usize, t: usize, s: usize, d: usize) {
    paint_digit(data, CLK_MIN_X, CLK_Y, m);
    paint_digit(data, CLK_10SEC_X, CLK_Y, t);
    paint_digit(data, CLK_SEC_X, CLK_Y, s);
    paint_digit(data, CLK_DECISEC_X, CLK_Y, d);
}

fn changes<const N: usize>(h: &GameStateHistory<N>) -> Vec<GameStateDelta> {
    h.iter().iter().map(|r| r.change).collect()
}

const NO_CAMS: [i32; 8] = [0; 8];

#[test]
fn names_and_indices() {
    assert_eq!(State::Camera.name(), "Camera");
    assert_eq!(State::Office.name(), "Office");
    assert_eq!(State::Duct.index(), 2);
    assert_eq!(Camera::WestHall.name(), "West hall");
    assert_eq!(Camera::PartsAndServices.index(), 7);
    assert_eq!(Vent::default(), Vent::Inactive);
    assert_eq!(Vent::Inactive.name(), "Inactive");
    assert_eq!(Duct::East.name(), "East");
}

#[test]
fn buttons_sit_where_the_game_draws_them() {
    assert_eq!(Button::ResetVent.pos(), IVec2::new(1700, 915));
    assert_eq!(Button::Cam06.pos(), IVec2::new(1422, 590));
    assert_eq!(Button::from_state(State::Camera), Button::CameraSystem);
    assert_eq!(Button::from_state(State::Vent), Button::VentSystem);
    assert_eq!(Button::from_state(State::Duct), Button::DuctSystem);
    assert_eq!(Button::from(Camera::Kitchen), Button::Cam04);
    assert_eq!(Button::from(Camera::PartsAndServices).pos(), IVec2::new(988, 495));
}

#[test]
fn fresh_game_data() {
    let g = GameData::new();
    assert_eq!(g.flags, 0);
    assert_eq!(g.time.last_trusted, ClockTime::new(0));
    assert_eq!(g.time.error, [None, None, None, None]);
    assert_eq!(GameData::default(), g);
    assert_eq!(*ClockTimeResult::default(), ClockTime::new(0));
    let r = ClockTimeResult::from(ClockTime::new(42));
    assert_eq!(r.deciseconds(), 42);
    assert_eq!(r.error, [None; 4]);
}

#[test]
fn flags_read_what_was_set() {
    let mut g = GameData::new();
    let mut h = GameStateHistory::<8>::new();
    g.mark_door_closed(3, &mut h);
    assert!(g.is_door_closed(3));
    for d in [0u8, 1, 2, 4, 5] {
        assert!(!g.is_door_closed(d));
    }
    assert!(!g.is_flashlight_on());
    assert!(!g.is_ventilation_reset_needed());
    g.mark_flashlight_on(&mut h);
    assert!(g.is_flashlight_on());
    assert!(g.is_door_closed(3));
    g.mark_ventilation_needs_reset(&mut h);
    assert!(g.is_ventilation_reset_needed());
    assert_eq!(g.flags, VENTILATION_NEEDS_RESET_FLAG | FLASHLIGHT_FLAG | (DOOR0_CLOSED_FLAG << 3));
    g.mark_door_open(3, &mut h);
    g.mark_flashlight_off(&mut h);
    g.mark_ventilation_has_been_reset(&mut h);
    assert_eq!(g.flags, 0);
    assert_eq!(
        changes(&h),
        vec![
            GameStateDelta::DoorClosed(3, true),
            GameStateDelta::FlashlightOn(true),
            GameStateDelta::VentilationResetNeeded(true),
            GameStateDelta::DoorClosed(3, false),
            GameStateDelta::FlashlightOn(false),
            GameStateDelta::VentilationResetNeeded(false),
        ]
    );
}

#[test]
fn doors_past_five_have_no_flag_bit() {
    let mut g = GameData::new();
    let mut h = GameStateHistory::<8>::new();
    g.mark_door_closed(6, &mut h);
    g.mark_door_closed(7, &mut h);
    assert_eq!(g.flags, 0);
    assert!(!g.is_door_closed(6));
    assert_eq!(h.len(), 2);
}

#[test]
fn state_data_starts_in_each_state() {
    assert_eq!(StateData::initial(State::Camera), StateData::Camera(CameraData { camera: Camera::WestHall }));
    assert_eq!(StateData::initial(State::Vent), StateData::Vent(VentData { vent_snare: Vent::Inactive }));
    assert_eq!(StateData::initial(State::Office).state(), State::Office);
    assert_eq!(StateData::initial(State::Duct).state(), State::Duct);
    let g = GameState::<8>::new();
    assert_eq!(g.state(), State::Office);
    assert!(g.hist.is_empty());
}

#[test]
fn update_state_finds_camera_and_records_changes() {
    let mut g = GameState::<8>::new();
    let r = g.update_state([5, 0, 0], [0, 0, 5, 0, 0, 0, 0, 0]);
    assert_eq!(r, Ok(()));
    assert_eq!(g.state, StateData::Camera(CameraData { camera: Camera::Closet }));
    assert_eq!(
        changes(&g.hist),
        vec![GameStateDelta::State(State::Camera), GameStateDelta::Camera(Camera::Closet)]
    );
}

#[test]
fn update_state_twice_records_nothing_new() {
    let mut g = GameState::<8>::new();
    g.update_state([5, 0, 0], [0, 0, 0, 0, 0, 9, 0, 0]).unwrap();
    let n = g.hist.len();
    let st = g.state;
    g.update_state([5, 0, 0], [0, 0, 0, 0, 0, 9, 0, 0]).unwrap();
    assert_eq!(g.hist.len(), n);
    assert_eq!(g.state, st);
}

#[test]
fn update_state_camera_switch_records_only_the_camera() {
    let mut g = GameState::<8>::new();
    g.update_state([5, 0, 0], [5, 0, 0, 0, 0, 0, 0, 0]).unwrap();
    g.update_state([6, 0, 0], [0, 5, 0, 0, 0, 0, 0, 0]).unwrap();
    assert_eq!(g.state, StateData::Camera(CameraData { camera: Camera::EastHall }));
    assert_eq!(
        changes(&g.hist),
        vec![
            GameStateDelta::State(State::Camera),
            GameStateDelta::Camera(Camera::WestHall),
            GameStateDelta::Camera(Camera::EastHall),
        ]
    );
}

#[test]
fn update_state_needs_five_matching_samples() {
    let mut g = GameState::<8>::new();
    g.update_state([4, 4, 4], NO_CAMS).unwrap();
    assert_eq!(g.state(), State::Office);
    assert!(g.hist.is_empty());
}

#[test]
fn update_state_ties_go_to_the_last_system() {
    let mut g = GameState::<8>::new();
    g.update_state([5, 5, 0], NO_CAMS).unwrap();
    assert_eq!(g.state, StateData::Vent(VentData { vent_snare: Vent::Inactive }));
    g.update_state([5, 5, 5], NO_CAMS).unwrap();
    assert_eq!(g.state(), State::Duct);
}

#[test]
fn update_state_without_a_lit_camera_is_an_error() {
    let mut g = GameState::<8>::new();
    let r = g.update_state([5, 0, 0], [4, 4, 4, 4, 4, 4, 4, 4]);
    assert_eq!(r, Err(UpdateStateError::NoMatchingCameraInCameraState));
    assert_eq!(g.state(), State::Camera);
    assert_eq!(changes(&g.hist), vec![GameStateDelta::State(State::Camera)]);
    assert_eq!(
        UpdateStateError::NoMatchingCameraInCameraState.message(),
        "camera state identified, but no active camera found"
    );
}

#[test]
fn refresh_reads_clock_vent_warning_and_balloon_boy() {
    let mut data = blank();
    paint_clock(&mut data, 0, 0, 0, 5);
    set_pixel(&mut data, 1580, 1040, ColorRgb { r: 255, g: 0, b: 0 });
    let sd = ScreenData::new(data.into_boxed_slice(), WIDTH);
    let mut g = GameState::<8>::new();
    assert!(g.does_ventilation_need_reset(&sd));
    let r = g.refresh_game_data(&sd, [0, 0, 0], NO_CAMS, true);
    assert_eq!(r, Ok(()));
    assert_eq!(g.game.time.last_trusted, ClockTime::new(5));
    assert!(g.game.is_ventilation_reset_needed());
    assert_eq!(g.state, StateData::Office(OfficeData { office_yaw: 0, is_nmbb_standing: true }));
    assert_eq!(
        changes(&g.hist),
        vec![
            GameStateDelta::Time(5),
            GameStateDelta::VentilationResetNeeded(true),
            GameStateDelta::NMBBStanding(true),
        ]
    );
}

#[test]
fn refresh_keeps_the_clock_on_a_wild_reading() {
    let mut data = blank();
    paint_clock(&mut data, 0, 1, 2, 3);
    let sd = ScreenData::new(data.into_boxed_slice(), WIDTH);
    let mut g = GameState::<8>::new();
    g.refresh_game_data(&sd, [0, 0, 0], NO_CAMS, false).unwrap();
    assert_eq!(g.game.time.last_trusted, ClockTime { deciseconds: 0, pings_since_change: 1 });
    assert!(!g.game.is_ventilation_reset_needed());
    assert_eq!(changes(&g.hist), vec![GameStateDelta::Time(123)]);
}

#[test]
fn refresh_keeps_clock_errors() {
    let sd = ScreenData::new(blank().into_boxed_slice(), WIDTH);
    let mut g = GameState::<8>::new();
    g.refresh_game_data(&sd, [0, 0, 0], NO_CAMS, false).unwrap();
    assert!(g.game.time.error.iter().all(|e| e.is_some()));
    assert!(g.hist.is_empty());
}

#[test]
fn refresh_stops_at_a_state_error() {
    let sd = ScreenData::new(blank().into_boxed_slice(), WIDTH);
    let mut g = GameState::<8>::new();
    let r = g.refresh_game_data(&sd, [7, 0, 0], NO_CAMS, false);
    assert_eq!(r, Err(UpdateStateError::NoMatchingCameraInCameraState));
    assert_eq!(g.game, GameData::new());
}

#[test]
fn lamp_is_found_by_its_bright_surroundings() {
    let mut data = blank();
    // a lone bright pixel: its surroundings are dark, so it is not the lamp
    set_pixel(&mut data, 800, LAMP_SCAN_Y, ColorRgb { r: 250, g: 250, b: 250 });
    set_pixel(&mut data, 900, LAMP_SCAN_Y, ColorRgb { r: 250, g: 250, b: 250 });
    for (dx, dy) in [(0, 4), (4, 0), (0, -4), (-4, 0)] {
        set_pixel(&mut data, 900 + dx, LAMP_SCAN_Y + dy, ColorRgb { r: 240, g: 240, b: 240 });
    }
    let sd = ScreenData::new(data.into_boxed_slice(), WIDTH);
    let mut od = OfficeData::default();
    let mut h = GameStateHistory::<8>::new();
    od.locate_office_lamp(&sd, &mut h);
    assert_eq!(od.office_yaw, (900 - LAMP_SCAN_START) as u16);
    assert_eq!(changes(&h), vec![GameStateDelta::OfficeYaw(177)]);
}

#[test]
fn no_lamp_changes_nothing() {
    let sd = ScreenData::new(blank().into_boxed_slice(), WIDTH);
    let mut od = OfficeData { office_yaw: 9, is_nmbb_standing: true };
    let mut h = GameStateHistory::<8>::new();
    od.locate_office_lamp(&sd, &mut h);
    assert_eq!(od, OfficeData { office_yaw: 9, is_nmbb_standing: true });
    assert!(h.is_empty());
}

#[test]
fn looking_around_the_office() {
    let mut od = OfficeData::default();
    let mut h = GameStateHistory::<8>::new();
    assert_eq!(
        od.look_left(&mut h),
        vec![Action::MouseGoto(IVec2::new(8, 540)), Action::SleepMs(LOOK_TURN_MS)]
    );
    assert_eq!(
        od.look_right(&mut h),
        vec![Action::MouseGoto(IVec2::new(1910, 540)), Action::SleepMs(LOOK_TURN_MS)]
    );
    assert_eq!(h.len(), 2);
}
