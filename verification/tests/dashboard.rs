use king_of_fnaf::comp_vis::READ_NUMBER_SAMPLE_FLAGS;
use king_of_fnaf::dashboard::{
    digit_match_row, door_label, expected_patterns, flashlight_label, nmbb_label, record_counts,
    series, series_value, ventilation_label, Series,
};
use king_of_fnaf::game_state::{GameData, OfficeData, State};
use king_of_fnaf::history::{GameStateDelta, GameStateHistory};

#[test]
fn labels_follow_the_flags() {
    let mut g = GameData::new();
    let mut h = GameStateHistory::<4>::new();
    assert_eq!(ventilation_label(&g), "good");
    assert_eq!(door_label(&g, 0), "open");
    assert_eq!(flashlight_label(&g), "off");
    g.mark_ventilation_needs_reset(&mut h);
    g.mark_flashlight_on(&mut h);
    g.mark_door_closed(0, &mut h);
    assert_eq!(ventilation_label(&g), "WARNING");
    assert_eq!(door_label(&g, 0), "closed");
    assert_eq!(flashlight_label(&g), "on");
}

#[test]
fn door_label_reads_each_door() {
    let mut g = GameData::new();
    let mut h = GameStateHistory::<4>::new();
    g.mark_door_closed(1, &mut h);
    assert_eq!(door_label(&g, 0), "open");
    assert_eq!(door_label(&g, 1), "closed");
    assert_eq!(door_label(&g, 2), "open");
    assert_eq!(door_label(&g, 3), "open");
    g.mark_door_closed(3, &mut h);
    assert_eq!(door_label(&g, 3), "closed");
}

#[test]
fn balloon_boy_label() {
    assert_eq!(nmbb_label(&OfficeData { office_yaw: 0, is_nmbb_standing: true }), "standing");
    assert_eq!(nmbb_label(&OfficeData::default()), "sitting");
}

#[test]
fn series_values() {
    assert_eq!(series_value(GameStateDelta::Time(1234), Series::Time), Some(1234));
    assert_eq!(series_value(GameStateDelta::State(State::Duct), Series::State), Some(2));
    assert_eq!(series_value(GameStateDelta::NMBBStanding(true), Series::NmbbStanding), Some(1));
    assert_eq!(series_value(GameStateDelta::FlashlightOn(false), Series::Flashlight), Some(0));
    assert_eq!(series_value(GameStateDelta::Time(3), Series::State), None);
    assert_eq!(series_value(GameStateDelta::IsNmbbStanding(true), Series::NmbbStanding), None);
}

#[test]
fn series_picks_its_records_in_order() {
    let mut h = GameStateHistory::<2>::new();
    h.push(GameStateDelta::Time(10));
    h.push(GameStateDelta::State(State::Office));
    h.push(GameStateDelta::Time(11));
    h.push(GameStateDelta::FlashlightOn(true));
    h.push(GameStateDelta::Time(12));
    let times: Vec<i32> = series(&h, Series::Time).iter().map(|p| p.1).collect();
    assert_eq!(times, vec![10, 11, 12]);
    let states = series(&h, Series::State);
    assert_eq!(states.len(), 1);
    assert_eq!(states[0].1, 3);
    assert_eq!(states[0].0, h.get(1).unwrap().timestamp);
    assert!(series(&h, Series::NmbbStanding).is_empty());
}

#[test]
fn digit_rows_compare_each_sample_point() {
    let p = expected_patterns();
    assert_eq!(p[0], u8::MAX);
    for d in 0..10 {
        assert_eq!(p[d + 1], READ_NUMBER_SAMPLE_FLAGS[d]);
    }
    assert_eq!(digit_match_row(0b1000_0001, u8::MAX), [true, false, false, false, false, false, false, true]);
    assert_eq!(digit_match_row(READ_NUMBER_SAMPLE_FLAGS[3], READ_NUMBER_SAMPLE_FLAGS[3]), [true; 8]);
    assert_eq!(digit_match_row(0, 0b0000_0110), [true, false, false, true, true, true, true, true]);
}

#[test]
fn record_counts_split_into_blocks() {
    let mut h = GameStateHistory::<4>::new();
    for t in 0..10u16 {
        h.push(GameStateDelta::Time(t));
    }
    assert_eq!(record_counts(&h), (10, 2, 2));
}
