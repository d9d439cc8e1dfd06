use king_of_fnaf::clk::ClockTime;
use king_of_fnaf::game_state::{
    Button, Camera, CameraData, GameState, OfficeData, State, StateData, UpdateStateError,
};
use king_of_fnaf::history::{GameStateDelta, TAP_HOLD_MS};
use king_of_fnaf::input::{Action, VirtualKey};
use king_of_fnaf::playbook::{Cont, Event, Pc, Routine, AFTER_CHORE_MS, SYSTEM_SWITCH_MS};
use king_of_fnaf::CAM_RESP_MS;

const CAMERA_LIT: [i32; 3] = [5, 0, 0];
const OFFICE: [i32; 3] = [0, 0, 0];
const CAM1_LIT: [i32; 8] = [5, 0, 0, 0, 0, 0, 0, 0];

fn toggle_actions() -> Vec<Action> {
    vec![
        Action::KeyDown(VirtualKey::CameraToggle),
        Action::SleepMs(TAP_HOLD_MS),
        Action::KeyUp(VirtualKey::CameraToggle),
        Action::SleepMs(CAM_RESP_MS as u64),
    ]
}

fn click_at(b: Button) -> Vec<Action> {
    vec![
        Action::MouseGoto(b.pos()),
        Action::MouseDown,
        Action::SleepMs(TAP_HOLD_MS),
        Action::MouseUp,
    ]
}

fn in_camera() -> GameState<64> {
    let mut g = GameState::<64>::new();
    g.update_state(CAMERA_LIT, CAM1_LIT).unwrap();
    g
}

#[test]
fn toggle_monitor_then_update() {
    let mut g = GameState::<64>::new();
    let s = g.toggle_monitor();
    assert_eq!(s.actions, toggle_actions());
    assert_eq!(s.next, Pc::AwaitButtons(Cont::Stop));
    let s = g.resume(s.next, Event::Buttons(CAMERA_LIT, CAM1_LIT));
    assert!(s.actions.is_empty());
    assert_eq!(s.next, Pc::Done(Ok(())));
    assert_eq!(g.state, StateData::Camera(CameraData { camera: Camera::WestHall }));
}

#[test]
fn toggle_monitor_reports_a_state_error() {
    let mut g = GameState::<64>::new();
    let s = g.toggle_monitor();
    let s = g.resume(s.next, Event::Buttons(CAMERA_LIT, [0; 8]));
    assert_eq!(s.next, Pc::Done(Err(UpdateStateError::NoMatchingCameraInCameraState)));
}

#[test]
fn open_monitor_if_closed_does_nothing_on_the_monitor() {
    let mut g = in_camera();
    let n = g.hist.len();
    let s = g.open_monitor_if_closed();
    assert!(s.actions.is_empty());
    assert_eq!(s.next, Pc::Done(Ok(())));
    assert_eq!(g.hist.len(), n);
}

#[test]
fn enter_current_state_is_a_no_op() {
    let mut g = GameState::<64>::new();
    let s = g.enter_game_state(State::Office, Camera::Kitchen);
    assert!(s.actions.is_empty());
    assert_eq!(s.next, Pc::Done(Ok(())));
    assert!(g.hist.is_empty());
}

#[test]
fn enter_vent_from_the_office() {
    let mut g = GameState::<64>::new();
    let s = g.enter_game_state(State::Vent, Camera::WestHall);
    assert_eq!(s.actions, toggle_actions());
    assert_eq!(s.next, Pc::AwaitButtons(Cont::Enter(State::Vent, Camera::WestHall)));
    let s = g.resume(s.next, Event::Buttons(CAMERA_LIT, CAM1_LIT));
    let mut expected = click_at(Button::VentSystem);
    expected.push(Action::SleepMs(SYSTEM_SWITCH_MS));
    assert_eq!(s.actions, expected);
    assert_eq!(s.next, Pc::Done(Ok(())));
}

#[test]
fn enter_another_system_clicks_its_button() {
    let mut g = in_camera();
    let s = g.enter_game_state(State::Camera, Camera::Kitchen);
    assert_eq!(s.next, Pc::Done(Ok(())));
    let s2 = {
        let mut g2 = GameState::<64>::new();
        g2.update_state([0, 5, 0], [0; 8]).unwrap();
        g2.enter_game_state(State::Duct, Camera::WestHall)
    };
    let mut expected = click_at(Button::DuctSystem);
    expected.push(Action::SleepMs(SYSTEM_SWITCH_MS));
    assert_eq!(s2.actions, expected);
    // in the camera state already, entering the camera state changes nothing
    assert!(s.actions.is_empty());
}

#[test]
fn entering_the_office_from_the_monitor_toggles_it() {
    let mut g = in_camera();
    let s = g.enter_game_state(State::Office, Camera::WestHall);
    assert_eq!(s.actions, toggle_actions());
    let s = g.resume(s.next, Event::Buttons(OFFICE, [0; 8]));
    assert_eq!(s.actions, vec![Action::SleepMs(SYSTEM_SWITCH_MS)]);
    assert_eq!(g.state(), State::Office);
}

#[test]
fn funtime_foxy_on_the_monitor() {
    let mut g = in_camera();
    let s = g.handle_funtime_foxy();
    let mut expected = vec![Action::SleepMs(SYSTEM_SWITCH_MS)];
    expected.extend(click_at(Button::Cam06));
    assert_eq!(s.actions, expected);
    assert_eq!(s.next, Pc::Done(Ok(())));
}

#[test]
fn funtime_foxy_from_the_vents_opens_the_cameras_first() {
    let mut g = GameState::<64>::new();
    g.update_state([0, 5, 0], [0; 8]).unwrap();
    let s = g.handle_funtime_foxy();
    let mut expected = click_at(Button::CameraSystem);
    expected.push(Action::SleepMs(SYSTEM_SWITCH_MS));
    expected.extend(click_at(Button::Cam06));
    assert_eq!(s.actions, expected);
}

#[test]
fn reset_vents_from_the_office() {
    let mut g = GameState::<64>::new();
    g.game.mark_ventilation_needs_reset(&mut g.hist);
    let s = g.reset_vents();
    assert_eq!(s.actions, toggle_actions());
    assert_eq!(s.next, Pc::AwaitButtons(Cont::VentClicks(false)));
    let s = g.resume(s.next, Event::Buttons(CAMERA_LIT, CAM1_LIT));
    let mut expected = click_at(Button::ResetVent);
    expected.push(Action::SleepMs(AFTER_CHORE_MS));
    assert_eq!(s.actions, expected);
    assert_eq!(s.next, Pc::Done(Ok(())));
    assert!(!g.game.is_ventilation_reset_needed());
    assert_eq!(
        g.hist.get(g.hist.len() - 1).unwrap().change,
        GameStateDelta::VentilationResetNeeded(false)
    );
}

#[test]
fn balloon_boy_is_flashed_then_checked_again() {
    let mut g = GameState::<64>::new();
    let s = g.handle_nmbb();
    assert!(s.actions.is_empty());
    assert_eq!(s.next, Pc::AwaitNmbb { second: false, act: false });
    let s = g.resume(s.next, Event::Nmbb(true));
    assert_eq!(
        s.actions,
        vec![
            Action::KeyDown(VirtualKey::Flashlight),
            Action::SleepMs(TAP_HOLD_MS),
            Action::KeyUp(VirtualKey::Flashlight),
        ]
    );
    assert_eq!(s.next, Pc::AwaitNmbb { second: true, act: false });
    let s = g.resume(s.next, Event::Nmbb(false));
    assert!(s.actions.is_empty());
    assert_eq!(s.next, Pc::Done(Ok(())));
    assert_eq!(g.state, StateData::Office(OfficeData { office_yaw: 0, is_nmbb_standing: false }));
}

#[test]
fn balloon_boy_only_in_the_office() {
    let mut g = in_camera();
    let s = g.handle_nmbb();
    assert_eq!(s.next, Pc::Done(Ok(())));
}

#[test]
fn an_unexpected_event_changes_nothing() {
    let mut g = GameState::<64>::new();
    let n = g.hist.len();
    let pc = Pc::AwaitButtons(Cont::Stop);
    let s = g.resume(pc, Event::Nmbb(true));
    assert!(s.actions.is_empty());
    assert_eq!(s.next, pc);
    assert_eq!(g.hist.len(), n);
    let s = g.resume(Pc::Done(Ok(())), Event::Buttons(CAMERA_LIT, CAM1_LIT));
    assert_eq!(s.next, Pc::Done(Ok(())));
    assert_eq!(g.state(), State::Office);
}

#[test]
fn act_on_game_data_with_nothing_to_do() {
    let mut g = GameState::<64>::new();
    let s = g.act_on_game_data();
    assert!(s.actions.is_empty());
    assert_eq!(s.next, Pc::Done(Ok(())));
}

#[test]
fn act_on_game_data_resets_vents_then_checks_foxy() {
    let mut g = GameState::<64>::new();
    g.game.mark_ventilation_needs_reset(&mut g.hist);
    let s = g.act_on_game_data();
    assert_eq!(s.next, Pc::AwaitButtons(Cont::VentClicks(true)));
    let s = g.resume(s.next, Event::Buttons(CAMERA_LIT, CAM1_LIT));
    let mut expected = click_at(Button::ResetVent);
    expected.push(Action::SleepMs(AFTER_CHORE_MS));
    assert_eq!(s.actions, expected);
    assert_eq!(s.next, Pc::Done(Ok(())));
}

#[test]
fn act_on_game_data_goes_to_foxy_before_the_hour() {
    let mut g = in_camera();
    g.game.time.last_trusted = ClockTime::new(440);
    let s = g.act_on_game_data();
    let mut expected = vec![Action::SleepMs(SYSTEM_SWITCH_MS)];
    expected.extend(click_at(Button::Cam06));
    expected.push(Action::SleepMs(AFTER_CHORE_MS));
    assert_eq!(s.actions, expected);
    assert_eq!(s.next, Pc::Done(Ok(())));
    let mut early = in_camera();
    early.game.time.last_trusted = ClockTime::new(436);
    let s = early.act_on_game_data();
    assert!(s.actions.is_empty());
}

#[test]
fn act_on_game_data_starts_with_a_standing_balloon_boy() {
    let mut g = GameState::<64>::new();
    g.state = StateData::Office(OfficeData { office_yaw: 0, is_nmbb_standing: true });
    g.game.mark_ventilation_needs_reset(&mut g.hist);
    let s = g.act_on_game_data();
    assert_eq!(s.next, Pc::AwaitNmbb { second: false, act: true });
    let s = g.resume(s.next, Event::Nmbb(true));
    assert_eq!(s.next, Pc::AwaitNmbb { second: true, act: true });
    let s = g.resume(s.next, Event::Nmbb(false));
    assert_eq!(s.actions, toggle_actions());
    assert_eq!(s.next, Pc::AwaitButtons(Cont::VentClicks(true)));
}

#[test]
fn every_routine_ends_within_four_readings() {
    let routines = [
        Routine::ToggleMonitor,
        Routine::OpenMonitorIfClosed,
        Routine::EnterGameState(State::Duct, Camera::Closet),
        Routine::HandleFuntimeFoxy,
        Routine::ResetVents,
        Routine::HandleNmbb,
        Routine::ActOnGameData,
    ];
    for r in routines {
        let mut g = GameState::<64>::new();
        g.state = StateData::Office(OfficeData { office_yaw: 0, is_nmbb_standing: true });
        g.game.mark_ventilation_needs_reset(&mut g.hist);
        g.game.time.last_trusted = ClockTime::new(445);
        let mut s = g.start(r);
        let mut readings = 0;
        while !matches!(s.next, Pc::Done(_)) {
            let ev = match s.next {
                Pc::AwaitButtons(_) => Event::Buttons(OFFICE, [0; 8]),
                _ => Event::Nmbb(true),
            };
            s = g.resume(s.next, ev);
            readings += 1;
            assert!(readings <= 4);
        }
    }
}
