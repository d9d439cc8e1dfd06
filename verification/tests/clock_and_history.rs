use king_of_fnaf::clk::{ClockTime, MAX_JUMP, MAX_PINGS};
use king_of_fnaf::history::{GameStateDelta, GameStateHistory, TAP_HOLD_MS};
use king_of_fnaf::input::{Action, KeyState, MouseEvent, VirtualKey};
use king_of_fnaf::ivec2::IVec2;

#[test]
fn clock_splits_into_minutes_seconds_and_hours() {
    let c = ClockTime::new(2256);
    assert_eq!(c.deciseconds(), 2256);
    assert_eq!(c.pings_since_change(), 0);
    assert_eq!(c.seconds(), 225);
    assert_eq!(c.minutes(), 3);
    assert_eq!(c.hour(), 5);
    assert_eq!(c.whole_hour_deciseconds(), 2250);
    assert_eq!(c.deciseconds_since_hour(), 6);
    assert_eq!(c.display_parts(), (3, 45, 6));
    assert_eq!(ClockTime::default(), ClockTime::new(0));
    assert_eq!(ClockTime::MAX, 2700);
}

#[test]
fn clock_hours_and_remainder_add_up() {
    for d in [0u16, 1, 449, 450, 451, 899, 2699, 2700, 5999, u16::MAX] {
        let c = ClockTime::new(d);
        assert_eq!(c.whole_hour_deciseconds() + c.deciseconds_since_hour(), d);
        assert!(c.deciseconds_since_hour() < 450);
    }
}

#[test]
fn clock_display_pads_nothing_itself() {
    assert_eq!(ClockTime::new(0).display_parts(), (0, 0, 0));
    assert_eq!(ClockTime::new(609).display_parts(), (1, 0, 9));
}

#[test]
fn clock_accepts_small_steps_forward() {
    let mut c = ClockTime::new(95);
    c.update_time(100);
    assert_eq!(c, ClockTime::new(100));
    c.update_time(100 + MAX_JUMP - 1);
    assert_eq!(c.deciseconds(), 109);
}

#[test]
fn clock_rejects_repeats_jumps_zero_and_out_of_range() {
    let mut c = ClockTime::new(100);
    c.update_time(100);
    assert_eq!(c.deciseconds(), 100);
    assert_eq!(c.pings_since_change(), 1);
    c.update_time(100 + MAX_JUMP);
    assert_eq!(c.deciseconds(), 100);
    assert_eq!(c.pings_since_change(), 2);
    c.update_time(50);
    assert_eq!(c.pings_since_change(), 3);
    let mut z = ClockTime::new(0);
    z.update_time(0);
    assert_eq!(z.deciseconds(), 0);
    assert_eq!(z.pings_since_change(), 1);
    let mut late = ClockTime::new(ClockTime::MAX - 2);
    late.update_time(ClockTime::MAX + 1);
    assert_eq!(late.deciseconds(), ClockTime::MAX - 2);
    late.update_time(ClockTime::MAX);
    assert_eq!(late.deciseconds(), ClockTime::MAX);
}

#[test]
fn clock_stays_within_the_night() {
    let mut c = ClockTime::new(2695);
    c.update_time(2701);
    assert_eq!(c, ClockTime { deciseconds: 2695, pings_since_change: 1 });
    for _ in 0..=MAX_PINGS {
        c.update_time(5000);
    }
    c.update_time(5000);
    assert_eq!(c.deciseconds(), 2695);
    c.update_time(2700);
    assert_eq!(c, ClockTime::new(2700));
}

#[test]
fn history_pushes_read_back_in_order() {
    let mut h = GameStateHistory::<3>::new();
    let deltas = [
        GameStateDelta::Time(1),
        GameStateDelta::FlashlightOn(true),
        GameStateDelta::DoorClosed(2, true),
        GameStateDelta::Time(2),
        GameStateDelta::NMBBStanding(true),
    ];
    for (n, d) in deltas.iter().enumerate() {
        assert_eq!(h.len(), n);
        assert_eq!(h.is_empty(), n == 0);
        h.push(*d);
    }
    assert_eq!(h.len(), deltas.len());
    for i in 0..8 {
        assert_eq!(h.get(i).map(|r| r.change), deltas.get(i).copied());
    }
    let all: Vec<GameStateDelta> = h.iter().iter().map(|r| r.change).collect();
    assert_eq!(all, deltas.to_vec());
}

#[test]
fn clock_resyncs_after_enough_rejections() {
    let mut c = ClockTime::new(100);
    for _ in 0..=MAX_PINGS {
        c.update_time(900);
        assert_eq!(c.deciseconds(), 100);
    }
    assert_eq!(c.pings_since_change(), MAX_PINGS + 1);
    c.update_time(900);
    assert_eq!(c, ClockTime::new(900));
}

#[test]
fn clock_never_runs_backwards() {
    let mut c = ClockTime::new(500);
    for t in [499u16, 0, 501, 400, 6000, 505, 12] {
        let before = c.deciseconds();
        c.update_time(t);
        assert!(c.deciseconds() >= before);
    }
    assert_eq!(c.deciseconds(), 505);
}

#[test]
fn clock_orders_by_time_alone() {
    let a = ClockTime::new(5);
    let b = ClockTime::new(6);
    assert!(a < b);
    assert!(b > a);
    let pinged = ClockTime { deciseconds: 5, pings_since_change: 3 };
    assert_eq!(a.partial_cmp(&pinged), Some(std::cmp::Ordering::Equal));
    assert_ne!(a, pinged);
}

#[test]
fn history_starts_empty() {
    let h = GameStateHistory::<4>::new();
    assert!(h.is_empty());
    assert_eq!(h.len(), 0);
    assert!(h.get(0).is_none());
    assert!(h.iter().is_empty());
}

#[test]
fn history_get_reads_back_what_was_pushed() {
    let mut h = GameStateHistory::<4>::new();
    for t in 0..10u16 {
        h.push(GameStateDelta::Time(t));
    }
    assert_eq!(h.len(), 10);
    assert!(!h.is_empty());
    for t in 0..10u16 {
        assert_eq!(h.get(t as usize).unwrap().change, GameStateDelta::Time(t));
    }
    assert!(h.get(10).is_none());
    assert!(h.get(usize::MAX).is_none());
    let all: Vec<GameStateDelta> = h.iter().iter().map(|r| r.change).collect();
    assert_eq!(all, (0..10u16).map(GameStateDelta::Time).collect::<Vec<_>>());
    assert_eq!(h.data.len(), 3);
}

#[test]
fn history_push_keeps_earlier_records() {
    let mut h = GameStateHistory::<3>::new();
    h.push(GameStateDelta::FlashlightOn(true));
    h.push(GameStateDelta::DoorClosed(1, true));
    let before = h.iter();
    h.push(GameStateDelta::NMBBStanding(false));
    let after = h.iter();
    assert_eq!(after.len(), before.len() + 1);
    for i in 0..before.len() {
        assert_eq!(after[i], before[i]);
        assert_eq!(h.get(i).unwrap().change, before[i].change);
    }
    assert_eq!(h.get(before.len()).unwrap().change, GameStateDelta::NMBBStanding(false));
}

#[test]
fn history_with_zero_capacity_keeps_one_record_per_block() {
    let mut h = GameStateHistory::<0>::new();
    assert_eq!(h.len(), 0);
    h.push(GameStateDelta::Time(1));
    h.push(GameStateDelta::Time(2));
    assert_eq!(h.data.len(), 2);
    assert_eq!(h.len(), 1);
    assert!(!h.is_empty());
    assert_eq!(h.iter().len(), 2);
}

#[test]
fn history_record_is_push() {
    let mut h = GameStateHistory::<2>::new();
    h.record(GameStateDelta::OfficeYaw(17));
    assert_eq!(h.len(), 1);
    assert_eq!(h.get(0).unwrap().change, GameStateDelta::OfficeYaw(17));
}

#[test]
fn history_key_inputs() {
    let mut h = GameStateHistory::<8>::new();
    assert_eq!(h.sim_key_down(VirtualKey::LeftDoor), vec![Action::KeyDown(VirtualKey::LeftDoor)]);
    assert_eq!(h.sim_key_up(VirtualKey::LeftDoor), vec![Action::KeyUp(VirtualKey::LeftDoor)]);
    assert_eq!(
        h.sim_key_tap(VirtualKey::DeskFan),
        vec![
            Action::KeyDown(VirtualKey::DeskFan),
            Action::SleepMs(TAP_HOLD_MS),
            Action::KeyUp(VirtualKey::DeskFan),
        ]
    );
    let changes: Vec<GameStateDelta> = h.iter().iter().map(|r| r.change).collect();
    assert_eq!(
        changes,
        vec![
            GameStateDelta::VirtualKeyInput { key: VirtualKey::LeftDoor, is_down: true },
            GameStateDelta::VirtualKeyInput { key: VirtualKey::LeftDoor, is_down: false },
            GameStateDelta::VirtualKeyInput { key: VirtualKey::DeskFan, is_down: true },
            GameStateDelta::VirtualKeyInput { key: VirtualKey::DeskFan, is_down: false },
        ]
    );
}

#[test]
fn history_mouse_inputs() {
    let mut h = GameStateHistory::<8>::new();
    let p = IVec2::new(12, 34);
    assert_eq!(h.sim_mouse_goto(p), vec![Action::MouseGoto(p)]);
    assert_eq!(h.sim_mouse_down(), vec![Action::MouseDown]);
    assert_eq!(h.sim_mouse_up(), vec![Action::MouseUp]);
    assert_eq!(
        h.sim_mouse_click(),
        vec![Action::MouseDown, Action::SleepMs(TAP_HOLD_MS), Action::MouseUp]
    );
    assert_eq!(h.len(), 5);
    let q = IVec2::new(1, 2);
    assert_eq!(
        h.sim_mouse_click_at(q),
        vec![Action::MouseGoto(q), Action::MouseDown, Action::SleepMs(TAP_HOLD_MS), Action::MouseUp]
    );
    assert_eq!(h.len(), 8);
    assert_eq!(h.get(5).unwrap().change, GameStateDelta::VirtualMouseMove { pos: q });
    assert_eq!(h.get(6).unwrap().change, GameStateDelta::VirtualMouseButton { input_press: true });
    assert_eq!(h.get(7).unwrap().change, GameStateDelta::VirtualMouseButton { input_press: false });
}

#[test]
fn key_states() {
    assert_eq!(KeyState::default(), KeyState::Up);
    assert!(KeyState::Up.is_up());
    assert!(!KeyState::Up.is_down());
    assert!(KeyState::Down.is_down());
    assert!(!KeyState::Down.is_up());
}

#[test]
fn virtual_key_codes_are_the_typed_characters() {
    assert_eq!(VirtualKey::FrontVent.code(), 'W' as i32);
    assert_eq!(VirtualKey::LeftDoor.code(), 'A' as i32);
    assert_eq!(VirtualKey::CameraToggle.code(), 'S' as i32);
    assert_eq!(VirtualKey::RightDoor.code(), 'D' as i32);
    assert_eq!(VirtualKey::RightVent.code(), 'F' as i32);
    assert_eq!(VirtualKey::CatchFish.code(), 'C' as i32);
    assert_eq!(VirtualKey::CloseAd.code(), '\n' as i32);
    assert_eq!(VirtualKey::DeskFan.code(), ' ' as i32);
    assert_eq!(VirtualKey::One.code(), '1' as i32);
    assert_eq!(VirtualKey::Six.code(), '6' as i32);
    assert_eq!(VirtualKey::X.code(), 'X' as i32);
    assert_eq!(VirtualKey::Flashlight.code(), 'Z' as i32);
    assert_eq!(VirtualKey::Exit.code(), 27);
}

#[test]
fn virtual_key_codes_are_distinct() {
    let keys = [
        VirtualKey::FrontVent,
        VirtualKey::LeftDoor,
        VirtualKey::CameraToggle,
        VirtualKey::RightDoor,
        VirtualKey::RightVent,
        VirtualKey::CatchFish,
        VirtualKey::CloseAd,
        VirtualKey::DeskFan,
        VirtualKey::One,
        VirtualKey::Two,
        VirtualKey::Three,
        VirtualKey::Four,
        VirtualKey::Five,
        VirtualKey::Six,
        VirtualKey::X,
        VirtualKey::Flashlight,
        VirtualKey::Exit,
    ];
    for a in keys {
        for b in keys {
            assert_eq!(a.code() == b.code(), a == b);
        }
    }
}

#[test]
fn mouse_event_unzips_into_position_and_button() {
    let p = IVec2::new(3, 4);
    assert_eq!(MouseEvent::Goto(p).unzip(), (Some(p), None));
    assert_eq!(MouseEvent::Btn(KeyState::Down).unzip(), (None, Some(KeyState::Down)));
    assert_eq!(
        MouseEvent::GotoAndBtn(p, KeyState::Up).unzip(),
        (Some(p), Some(KeyState::Up))
    );
}
