//! What the status window shows: labels for what the player knows, the series of recorded
//! values it graphs, and how an unread clock digit compares with each known digit.
use vstd::prelude::*;

use crate::comp_vis::{flag_bit, READ_NUMBER_SAMPLE_FLAGS};
use crate::game_state::{
    has_flag, door_mask, state_index, GameData, OfficeData, FLASHLIGHT_FLAG,
    VENTILATION_NEEDS_RESET_FLAG,
};
use crate::history::{DeltaRecord, GameStateDelta, GameStateHistory};

use std::time::Instant;

verus! {

/// How the ventilation is shown: `"WARNING"` when it needs a reset, else `"good"`.
pub fn ventilation_label(g: &GameData) -> (s: &'static str)
    ensures
        has_flag(g.flags, VENTILATION_NEEDS_RESET_FLAG) ==> s@ == "WARNING"@,
        !has_flag(g.flags, VENTILATION_NEEDS_RESET_FLAG) ==> s@ == "good"@,
{
    if g.is_ventilation_reset_needed() {
        "WARNING"
    } else {
        "good"
    }
}

/// How door `door` is shown: `"closed"` or `"open"`. The window has a line for each of the
/// four doors, left to right: left door, front vent, right door, right vent.
pub fn door_label(g: &GameData, door: u8) -> (s: &'static str)
    requires
        door < 4,
    ensures
        has_flag(g.flags, door_mask(door)) ==> s@ == "closed"@,
        !has_flag(g.flags, door_mask(door)) ==> s@ == "open"@,
{
    if g.is_door_closed(door) {
        "closed"
    } else {
        "open"
    }
}

/// How the flashlight is shown: `"on"` or `"off"`.
pub fn flashlight_label(g: &GameData) -> (s: &'static str)
    ensures
        has_flag(g.flags, FLASHLIGHT_FLAG) ==> s@ == "on"@,
        !has_flag(g.flags, FLASHLIGHT_FLAG) ==> s@ == "off"@,
{
    if g.is_flashlight_on() {
        "on"
    } else {
        "off"
    }
}

/// How Nightmare Balloon Boy is shown: `"standing"` or `"sitting"`.
pub fn nmbb_label(od: &OfficeData) -> (s: &'static str)
    ensures
        od.is_nmbb_standing ==> s@ == "standing"@,
        !od.is_nmbb_standing ==> s@ == "sitting"@,
{
    if od.is_nmbb_standing {
        "standing"
    } else {
        "sitting"
    }
}

/// A kind of recorded value that the window graphs over time.
#[derive(Debug, Clone, Copy, PartialEq, Eq, Structural)]
pub enum Series {
    /// Clock readings, in deciseconds
    Time,
    /// The state, by its position in `Camera, Vent, Duct, Office`
    State,
    /// Whether Nightmare Balloon Boy stands, as 1 or 0
    NmbbStanding,
    /// Whether the flashlight is on, as 1 or 0
    Flashlight,
}

/// The value that `change` adds to series `s`, if it belongs to it.
pub open spec fn series_value_spec(change: GameStateDelta, s: Series) -> Option<i32> {
    match (s, change) {
        (Series::Time, GameStateDelta::Time(t)) => Some(t as i32),
        (Series::State, GameStateDelta::State(st)) => Some(state_index(st) as i32),
        (Series::NmbbStanding, GameStateDelta::NMBBStanding(b)) => Some(
            if b {
                1i32
            } else {
                0i32
            },
        ),
        (Series::Flashlight, GameStateDelta::FlashlightOn(b)) => Some(
            if b {
                1i32
            } else {
                0i32
            },
        ),
        _ => None,
    }
}

/// The points of series `s` among `records`, oldest first, each with its record's time.
pub open spec fn series_spec(records: Seq<DeltaRecord>, s: Series) -> Seq<(Instant, i32)>
    decreases records.len(),
{
    if records.len() == 0 {
        Seq::empty()
    } else {
        let prev = series_spec(records.drop_last(), s);
        match series_value_spec(records.last().change, s) {
            Some(v) => prev.push((records.last().timestamp, v)),
            None => prev,
        }
    }
}

/// The value that `change` adds to series `s`, if it belongs to it.
pub fn series_value(change: GameStateDelta, s: Series) -> (v: Option<i32>)
    ensures
        v == series_value_spec(change, s),
{
    match (s, change) {
        (Series::Time, GameStateDelta::Time(t)) => Some(t as i32),
        (Series::State, GameStateDelta::State(st)) => Some(st.index()),
        (Series::NmbbStanding, GameStateDelta::NMBBStanding(b)) => Some(
            if b {
                1
            } else {
                0
            },
        ),
        (Series::Flashlight, GameStateDelta::FlashlightOn(b)) => Some(
            if b {
                1
            } else {
                0
            },
        ),
        _ => None,
    }
}

/// The points of series `s` in the history, oldest first, each with its record's time.
pub fn series<const BLOCK_CAP: usize>(hist: &GameStateHistory<BLOCK_CAP>, s: Series) -> (v: Vec<
    (Instant, i32),
>)
    requires
        hist.wf(),
    ensures
        v@ == series_spec(hist.view(), s),
{
    let records = hist.iter();
    let mut v: Vec<(Instant, i32)> = Vec::new();
    let mut i: usize = 0;
    while i < records.len()
        invariant
            0 <= i <= records@.len(),
            records@ == hist.view(),
            v@ == series_spec(records@.take(i as int), s),
        decreases records@.len() - i,
    {
        let r = records[i];
        assert(records@.take(i + 1).drop_last() =~= records@.take(i as int));
        match series_value(r.change, s) {
            Some(val) => v.push((r.timestamp, val)),
            None => {},
        }
        i = i + 1;
    }
    assert(records@.take(i as int) =~= records@);
    v
}

/// The pattern a cell row of the digit diagnostic is compared with: row 0 expects every sample
/// point lit, row `d + 1` expects digit `d`.
pub open spec fn expected_pattern(row: int) -> u8 {
    if row == 0 {
        u8::MAX
    } else {
        READ_NUMBER_SAMPLE_FLAGS@[row - 1]
    }
}

/// The patterns of the rows of the digit diagnostic, in order.
pub fn expected_patterns() -> (p: [u8; 11])
    ensures
        forall|row: int| 0 <= row < 11 ==> #[trigger] p@[row] == expected_pattern(row),
{
    let mut p: [u8; 11] = [u8::MAX; 11];
    let mut d: usize = 0;
    while d < 10
        invariant
            0 <= d <= 10,
            p@.len() == 11,
            p@[0] == u8::MAX,
            forall|row: int| 1 <= row <= d ==> #[trigger] p@[row] == READ_NUMBER_SAMPLE_FLAGS@[row - 1],
        decreases 10 - d,
    {
        p[d + 1] = READ_NUMBER_SAMPLE_FLAGS[d];
        d = d + 1;
    }
    p
}

/// Whether each sample point of an unread digit, lit as `flags` says, agrees with `expect`.
pub fn digit_match_row(flags: u8, expect: u8) -> (r: [bool; 8])
    ensures
        forall|j: int| 0 <= j < 8 ==> #[trigger] r@[j] == (flag_bit(flags, j as u8) == flag_bit(expect, j as u8)),
{
    let mut r: [bool; 8] = [false; 8];
    let mut j: u8 = 0;
    while j < 8
        invariant
            0 <= j <= 8,
            r@.len() == 8,
            forall|k: int| 0 <= k < j ==> #[trigger] r@[k] == (flag_bit(flags, k as u8) == flag_bit(expect, k as u8)),
        decreases 8 - j,
    {
        let same = ((flags >> j) & 1) == ((expect >> j) & 1);
        assert(same == (flag_bit(flags, j) == flag_bit(expect, j))) by (bit_vector)
            requires
                same == (((flags >> j) & 1u8) == ((expect >> j) & 1u8)),
        ;
        r[j as usize] = same;
        j = j + 1;
    }
    r
}

/// The number of records, and how many full blocks and further records that makes.
pub fn record_counts<const BLOCK_CAP: usize>(hist: &GameStateHistory<BLOCK_CAP>) -> (c: (
    usize,
    usize,
    usize,
))
    requires
        hist.wf(),
        BLOCK_CAP > 0,
    ensures
        c.0 == hist.view().len(),
        c.1 == c.0 / BLOCK_CAP,
        c.2 == c.0 % BLOCK_CAP,
{
    let n = hist.len();
    (n, n / BLOCK_CAP, n % BLOCK_CAP)
}

} // verus!
