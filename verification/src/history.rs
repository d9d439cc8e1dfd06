//! A log of every change the player saw or made, in blocks of fixed capacity.
use vstd::arithmetic::div_mod::lemma_fundamental_div_mod_converse;
use vstd::prelude::*;

use crate::game_state::{Camera, Duct, State, Vent};
use crate::input::{Action, VirtualKey};
use crate::ivec2::IVec2;

use std::time::Instant;

verus! {

/// The monotonic clock's reading type, carried through as an opaque stamp.
#[verifier::external_type_specification]
#[verifier::external_body]
pub struct ExInstant(Instant);

/// `Instant::now()`: the current reading of the monotonic clock. Nothing is claimed of it.
#[verifier::external_body]
fn instant_now() -> (t: Instant) {
    Instant::now()
}

/// One change to what we know of the game, or one input we sent.
#[derive(Debug, Clone, Copy, PartialEq)]
pub enum GameStateDelta {
    Time(u16),
    State(State),
    NextFFShow(u16),
    /// The office yaw, as the lamp's column offset: the yaw is this over
    /// [`crate::game_state::LAMP_SCAN_WIDTH`].
    OfficeYaw(u16),
    IsNmbbStanding(bool),
    Camera(Camera),
    VentSnare(Vent),
    ClosedDuct(Duct),
    AudioLure(IVec2),
    VentilationResetNeeded(bool),
    FlashlightOn(bool),
    DoorClosed(u8, bool),
    NMBBStanding(bool),
    VirtualKeyInput { key: VirtualKey, is_down: bool },
    VirtualMouseMove { pos: IVec2 },
    VirtualMouseButton { input_press: bool },
}

/// A change with the time it was recorded.
#[derive(Debug, Clone, Copy, PartialEq)]
pub struct DeltaRecord {
    pub timestamp: Instant,
    pub change: GameStateDelta,
}

impl DeltaRecord {
    /// Stamps `change` with the current time.
    pub fn new(change: GameStateDelta) -> (r: Self)
        ensures
            r.change == change,
    {
        Self { timestamp: instant_now(), change }
    }
}

/// The flat sequence that a list of blocks holds, block after block.
pub open spec fn flat(blocks: Seq<Seq<DeltaRecord>>) -> Seq<DeltaRecord> {
    blocks.flatten_alt()
}

/// Every block but the last holds exactly `cap` records.
pub open spec fn full_but_last(blocks: Seq<Seq<DeltaRecord>>, cap: int) -> bool {
    forall|i: int| 0 <= i < blocks.len() - 1 ==> #[trigger] blocks[i].len() == cap
}

proof fn lemma_flat_len(blocks: Seq<Seq<DeltaRecord>>, cap: int)
    requires
        blocks.len() > 0,
        cap > 0,
        full_but_last(blocks, cap),
    ensures
        flat(blocks).len() == (blocks.len() - 1) * cap + blocks.last().len(),
    decreases blocks.len(),
{
    if blocks.len() > 1 {
        let rest = blocks.drop_last();
        assert(full_but_last(rest, cap));
        lemma_flat_len(rest, cap);
        assert(rest.last() == blocks[blocks.len() - 2]);
        assert((rest.len() - 1) * cap + cap == (blocks.len() - 1) * cap) by (nonlinear_arith)
            requires
                rest.len() == blocks.len() - 1,
        ;
    } else {
        assert(blocks.drop_last().len() == 0);
        assert(flat(blocks.drop_last()) =~= Seq::<DeltaRecord>::empty());
    }
}

proof fn lemma_flat_index(blocks: Seq<Seq<DeltaRecord>>, cap: int, i: int)
    requires
        blocks.len() > 0,
        cap > 0,
        full_but_last(blocks, cap),
        blocks.last().len() <= cap,
        0 <= i < flat(blocks).len(),
    ensures
        i / cap < blocks.len(),
        i % cap < blocks[i / cap].len(),
        flat(blocks)[i] == blocks[i / cap][i % cap],
    decreases blocks.len(),
{
    lemma_flat_len(blocks, cap);
    let n = blocks.len();
    let rest = blocks.drop_last();
    if n > 1 {
        lemma_flat_len(rest, cap);
        assert(rest.last() == blocks[n - 2]);
    } else {
        assert(flat(rest) =~= Seq::<DeltaRecord>::empty());
    }
    let boundary = (n - 1) * cap;
    assert(flat(rest).len() == boundary) by (nonlinear_arith)
        requires
            n > 1 ==> flat(rest).len() == (rest.len() - 1) * cap + cap,
            n == 1 ==> flat(rest).len() == 0,
            rest.len() == n - 1,
            boundary == (n - 1) * cap,
    ;
    if i < boundary {
        assert(full_but_last(rest, cap));
        assert(rest.last().len() <= cap);
        lemma_flat_index(rest, cap, i);
        assert(flat(blocks)[i] == flat(rest)[i]);
    } else {
        let r = i - boundary;
        assert(0 <= r < cap);
        lemma_fundamental_div_mod_converse(i, cap, n - 1, r);
        assert(flat(blocks)[i] == blocks.last()[r]);
    }
}

/// `new` is `old` followed by one record for each of `deltas`, in order.
pub open spec fn records_appended(
    old: Seq<DeltaRecord>,
    new: Seq<DeltaRecord>,
    deltas: Seq<GameStateDelta>,
) -> bool {
    &&& new.len() == old.len() + deltas.len()
    &&& new.take(old.len() as int) == old
    &&& forall|k: int| 0 <= k < deltas.len() ==> #[trigger] new[old.len() + k].change == deltas[k]
}

/// A log of changes, kept in blocks of `BLOCK_CAP` records.
#[derive(Debug)]
pub struct GameStateHistory<const BLOCK_CAP: usize> {
    pub data: Vec<Vec<DeltaRecord>>,
}

impl<const BLOCK_CAP: usize> GameStateHistory<BLOCK_CAP> {
    /// The number of records a block holds; a capacity of zero behaves as one.
    pub open spec fn cap() -> int {
        if BLOCK_CAP == 0 {
            1
        } else {
            BLOCK_CAP as int
        }
    }

    /// The blocks, as sequences of records.
    pub open spec fn blocks(&self) -> Seq<Seq<DeltaRecord>> {
        self.data@.map_values(|b: Vec<DeltaRecord>| b@)
    }

    /// Every record, oldest first.
    pub open spec fn view(&self) -> Seq<DeltaRecord> {
        flat(self.blocks())
    }

    /// Blocks are never empty, never over capacity, and all but the last are full.
    pub open spec fn wf(&self) -> bool {
        &&& forall|i: int|
            0 <= i < self.blocks().len() ==> 1 <= #[trigger] self.blocks()[i].len() <= Self::cap()
        &&& full_but_last(self.blocks(), Self::cap())
        &&& self.view().len() <= usize::MAX
    }

    pub fn new() -> (h: Self)
        ensures
            h.wf(),
            h.view() == Seq::<DeltaRecord>::empty(),
    {
        let h = Self { data: Vec::new() };
        assert(h.blocks() =~= Seq::<Seq<DeltaRecord>>::empty());
        h
    }

    /// Records `delta`, stamped with the current time.
    pub fn push(&mut self, delta: GameStateDelta)
        requires
            old(self).wf(),
            old(self).view().len() < usize::MAX,
        ensures
            final(self).wf(),
            final(self).view().len() == old(self).view().len() + 1,
            final(self).view().drop_last() == old(self).view(),
            final(self).view().last().change == delta,
    {
        let ghost old_blocks = self.blocks();
        let rec = DeltaRecord::new(delta);
        let n = self.data.len();
        if n > 0 && self.data[n - 1].len() < BLOCK_CAP {
            let mut last = self.data.pop().unwrap();
            last.push(rec);
            self.data.push(last);
            proof {
                assert(self.blocks() =~= old_blocks.drop_last().push(old_blocks.last().push(rec)));
                assert(self.blocks().drop_last() =~= old_blocks.drop_last());
                assert(self.view() =~= old_blocks.drop_last().flatten_alt() + old_blocks.last().push(
                    rec,
                ));
            }
        } else {
            let mut block: Vec<DeltaRecord> = Vec::new();
            block.push(rec);
            self.data.push(block);
            proof {
                assert(self.blocks() =~= old_blocks.push(seq![rec]));
                assert(self.blocks().drop_last() =~= old_blocks);
            }
        }
        assert(self.view().drop_last() =~= old(self).view());
    }

    /// The `index`th record, oldest first, if there is one.
    pub fn get(&self, index: usize) -> (r: Option<&DeltaRecord>)
        requires
            self.wf(),
            BLOCK_CAP > 0,
        ensures
            index < self.view().len() ==> r == Some(&self.view()[index as int]),
            index >= self.view().len() ==> r is None,
    {
        let inter = index / BLOCK_CAP;
        let intra = index % BLOCK_CAP;
        if inter < self.data.len() && intra < self.data[inter].len() {
            proof {
                lemma_flat_len(self.blocks(), Self::cap());
                let c = BLOCK_CAP as int;
                let n = self.blocks().len();
                if index >= self.view().len() {
                    // a record past the end would sit in the last block, past its length
                    assert(index as int >= (n - 1) * c + self.blocks().last().len());
                    assert(inter * c + intra == index) by (nonlinear_arith)
                        requires
                            inter == index as int / c,
                            intra == index as int % c,
                            c > 0,
                    ;
                    assert(inter * c <= (n - 1) * c) by (nonlinear_arith)
                        requires
                            inter <= n - 1,
                            c > 0,
                    ;
                    if inter < n - 1 {
                        assert(inter * c + c <= (n - 1) * c) by (nonlinear_arith)
                            requires
                                inter <= n - 2,
                                c > 0,
                        ;
                    }
                    assert(false);
                } else {
                    lemma_flat_index(self.blocks(), c, index as int);
                }
            }
            Some(&self.data[inter][intra])
        } else {
            proof {
                if index < self.view().len() {
                    lemma_flat_index(self.blocks(), Self::cap(), index as int);
                }
            }
            None
        }
    }

    /// Every record, oldest first
    pub fn iter(&self) -> (v: Vec<DeltaRecord>)
        requires
            self.wf(),
        ensures
            v@ == self.view(),
    {
        let mut v: Vec<DeltaRecord> = Vec::new();
        let mut b: usize = 0;
        while b < self.data.len()
            invariant
                0 <= b <= self.data@.len(),
                v@ == flat(self.blocks().take(b as int)),
            decreases self.data@.len() - b,
        {
            let mut j: usize = 0;
            let ghost before = v@;
            while j < self.data[b].len()
                invariant
                    0 <= b < self.data@.len(),
                    0 <= j <= self.data@[b as int]@.len(),
                    v@ == before + self.data@[b as int]@.take(j as int),
                decreases self.data@[b as int]@.len() - j,
            {
                v.push(self.data[b][j]);
                j = j + 1;
                assert(v@ =~= before + self.data@[b as int]@.take(j as int));
            }
            assert(self.blocks().take(b + 1).drop_last() =~= self.blocks().take(b as int));
            assert(self.data@[b as int]@.take(j as int) =~= self.data@[b as int]@);
            b = b + 1;
        }
        assert(self.blocks().take(b as int) =~= self.blocks());
        v
    }

    /// The number of records reported: full blocks times the capacity, plus the last block's
    /// length.
    pub fn len(&self) -> (l: usize)
        requires
            self.wf(),
        ensures
            BLOCK_CAP > 0 ==> l == self.view().len(),
            BLOCK_CAP == 0 ==> l == (if self.view().len() == 0 {
                0int
            } else {
                1int
            }),
    {
        let n = self.data.len();
        if n == 0 {
            assert(self.view() =~= Seq::<DeltaRecord>::empty());
            0
        } else {
            proof {
                lemma_flat_len(self.blocks(), Self::cap());
                assert((n - 1) * BLOCK_CAP <= (n - 1) * Self::cap()) by (nonlinear_arith)
                    requires
                        BLOCK_CAP <= Self::cap(),
                        n >= 1,
                ;
                assert(0 <= (n - 1) * BLOCK_CAP) by (nonlinear_arith)
                    requires
                        n >= 1,
                ;
                if BLOCK_CAP == 0 {
                    assert((n - 1) * 0 == 0) by (nonlinear_arith);
                    assert(self.blocks().last().len() == 1);
                }
            }
            (n - 1) * BLOCK_CAP + self.data[n - 1].len()
        }
    }

    /// Whether nothing was recorded yet
    pub fn is_empty(&self) -> (b: bool)
        requires
            self.wf(),
        ensures
            b == (self.view().len() == 0),
    {
        let n = self.data.len();
        if n == 0 {
            assert(self.view() =~= Seq::<DeltaRecord>::empty());
            true
        } else {
            proof {
                lemma_flat_len(self.blocks(), Self::cap());
                assert(0 <= (n - 1) * Self::cap()) by (nonlinear_arith)
                    requires
                        n >= 1,
                        Self::cap() >= 1,
                ;
            }
            self.data[n - 1].len() == 0 && n == 1
        }
    }

    /// Records `delta`; the same as [`Self::push`], stated as one appended record.
    pub fn record(&mut self, delta: GameStateDelta)
        requires
            old(self).wf(),
            old(self).view().len() < usize::MAX,
        ensures
            final(self).wf(),
            records_appended(old(self).view(), final(self).view(), seq![delta]),
    {
        self.push(delta);
        assert(self.view().take(old(self).view().len() as int) =~= self.view().drop_last());
        assert(self.view()[old(self).view().len() as int + 0] == self.view().last());
    }

    /// Records pressing `key`; returns the input to send.
    pub fn sim_key_down(&mut self, key: VirtualKey) -> (a: Vec<Action>)
        requires
            old(self).wf(),
            old(self).view().len() < usize::MAX,
        ensures
            final(self).wf(),
            records_appended(
                old(self).view(),
                final(self).view(),
                seq![GameStateDelta::VirtualKeyInput { key, is_down: true }],
            ),
            a@ == seq![Action::KeyDown(key)],
    {
        self.record(GameStateDelta::VirtualKeyInput { key, is_down: true });
        let mut a = Vec::new();
        a.push(Action::KeyDown(key));
        a
    }

    /// Records releasing `key`; returns the input to send.
    pub fn sim_key_up(&mut self, key: VirtualKey) -> (a: Vec<Action>)
        requires
            old(self).wf(),
            old(self).view().len() < usize::MAX,
        ensures
            final(self).wf(),
            records_appended(
                old(self).view(),
                final(self).view(),
                seq![GameStateDelta::VirtualKeyInput { key, is_down: false }],
            ),
            a@ == seq![Action::KeyUp(key)],
    {
        self.record(GameStateDelta::VirtualKeyInput { key, is_down: false });
        let mut a = Vec::new();
        a.push(Action::KeyUp(key));
        a
    }

    /// Records pressing then releasing `key`; returns the inputs to send, with a pause between.
    pub fn sim_key_tap(&mut self, key: VirtualKey) -> (a: Vec<Action>)
        requires
            old(self).wf(),
            old(self).view().len() + 1 < usize::MAX,
        ensures
            final(self).wf(),
            records_appended(old(self).view(), final(self).view(), tap_deltas(key)),
            a@ == tap_actions(key),
    {
        let ghost v0 = self.view();
        let mut a = self.sim_key_down(key);
        let ghost v1 = self.view();
        a.push(Action::SleepMs(TAP_HOLD_MS));
        let mut up = self.sim_key_up(key);
        a.append(&mut up);
        proof {
            lemma_appended_twice(v0, v1, self.view(), tap_deltas(key).take(1), tap_deltas(key).skip(1));
            assert(tap_deltas(key).take(1) + tap_deltas(key).skip(1) =~= tap_deltas(key));
            assert(tap_deltas(key).take(1) =~= seq![GameStateDelta::VirtualKeyInput { key, is_down: true }]);
            assert(tap_deltas(key).skip(1) =~= seq![GameStateDelta::VirtualKeyInput { key, is_down: false }]);
        }
        assert(a@ =~= tap_actions(key));
        a
    }

    /// Records moving the mouse to `pos`; returns the input to send.
    pub fn sim_mouse_goto(&mut self, pos: IVec2) -> (a: Vec<Action>)
        requires
            old(self).wf(),
            old(self).view().len() < usize::MAX,
        ensures
            final(self).wf(),
            records_appended(
                old(self).view(),
                final(self).view(),
                seq![GameStateDelta::VirtualMouseMove { pos }],
            ),
            a@ == seq![Action::MouseGoto(pos)],
    {
        self.record(GameStateDelta::VirtualMouseMove { pos });
        let mut a = Vec::new();
        a.push(Action::MouseGoto(pos));
        a
    }

    /// Records pressing the left mouse button; returns the input to send.
    pub fn sim_mouse_down(&mut self) -> (a: Vec<Action>)
        requires
            old(self).wf(),
            old(self).view().len() < usize::MAX,
        ensures
            final(self).wf(),
            records_appended(
                old(self).view(),
                final(self).view(),
                seq![GameStateDelta::VirtualMouseButton { input_press: true }],
            ),
            a@ == seq![Action::MouseDown],
    {
        self.record(GameStateDelta::VirtualMouseButton { input_press: true });
        let mut a = Vec::new();
        a.push(Action::MouseDown);
        a
    }

    /// Records releasing the left mouse button; returns the input to send.
    pub fn sim_mouse_up(&mut self) -> (a: Vec<Action>)
        requires
            old(self).wf(),
            old(self).view().len() < usize::MAX,
        ensures
            final(self).wf(),
            records_appended(
                old(self).view(),
                final(self).view(),
                seq![GameStateDelta::VirtualMouseButton { input_press: false }],
            ),
            a@ == seq![Action::MouseUp],
    {
        self.record(GameStateDelta::VirtualMouseButton { input_press: false });
        let mut a = Vec::new();
        a.push(Action::MouseUp);
        a
    }

    /// Records a left click; returns the inputs to send, with a pause between.
    pub fn sim_mouse_click(&mut self) -> (a: Vec<Action>)
        requires
            old(self).wf(),
            old(self).view().len() + 1 < usize::MAX,
        ensures
            final(self).wf(),
            records_appended(old(self).view(), final(self).view(), click_deltas()),
            a@ == click_actions(),
    {
        let ghost v0 = self.view();
        let mut a = self.sim_mouse_down();
        let ghost v1 = self.view();
        a.push(Action::SleepMs(TAP_HOLD_MS));
        let mut up = self.sim_mouse_up();
        a.append(&mut up);
        proof {
            lemma_appended_twice(v0, v1, self.view(), click_deltas().take(1), click_deltas().skip(1));
            assert(click_deltas().take(1) + click_deltas().skip(1) =~= click_deltas());
            assert(click_deltas().take(1) =~= seq![GameStateDelta::VirtualMouseButton { input_press: true }]);
            assert(click_deltas().skip(1) =~= seq![GameStateDelta::VirtualMouseButton { input_press: false }]);
        }
        assert(a@ =~= click_actions());
        a
    }

    /// Records moving the mouse to `p` and clicking there; returns the inputs to send.
    pub fn sim_mouse_click_at(&mut self, p: IVec2) -> (a: Vec<Action>)
        requires
            old(self).wf(),
            old(self).view().len() + 2 < usize::MAX,
        ensures
            final(self).wf(),
            records_appended(old(self).view(), final(self).view(), click_at_deltas(p)),
            a@ == click_at_actions(p),
    {
        let ghost v0 = self.view();
        let mut a = self.sim_mouse_goto(p);
        let ghost v1 = self.view();
        let mut click = self.sim_mouse_click();
        a.append(&mut click);
        proof {
            lemma_appended_twice(v0, v1, self.view(), seq![GameStateDelta::VirtualMouseMove { pos: p }], click_deltas());
            assert(seq![GameStateDelta::VirtualMouseMove { pos: p }] + click_deltas() =~= click_at_deltas(p));
        }
        assert(a@ =~= click_at_actions(p));
        a
    }
}

/// How long a tapped key or clicked button is held, in milliseconds.
pub const TAP_HOLD_MS: u64 = 8;

/// The records of tapping `key`: pressed, then released.
pub open spec fn tap_deltas(key: VirtualKey) -> Seq<GameStateDelta> {
    seq![
        GameStateDelta::VirtualKeyInput { key, is_down: true },
        GameStateDelta::VirtualKeyInput { key, is_down: false },
    ]
}

/// The inputs of tapping `key`.
pub open spec fn tap_actions(key: VirtualKey) -> Seq<Action> {
    seq![Action::KeyDown(key), Action::SleepMs(TAP_HOLD_MS), Action::KeyUp(key)]
}

/// The records of a left click: pressed, then released.
pub open spec fn click_deltas() -> Seq<GameStateDelta> {
    seq![
        GameStateDelta::VirtualMouseButton { input_press: true },
        GameStateDelta::VirtualMouseButton { input_press: false },
    ]
}

/// The inputs of a left click.
pub open spec fn click_actions() -> Seq<Action> {
    seq![Action::MouseDown, Action::SleepMs(TAP_HOLD_MS), Action::MouseUp]
}

/// The records of clicking at `p`.
pub open spec fn click_at_deltas(p: IVec2) -> Seq<GameStateDelta> {
    seq![GameStateDelta::VirtualMouseMove { pos: p }] + click_deltas()
}

/// The inputs of clicking at `p`.
pub open spec fn click_at_actions(p: IVec2) -> Seq<Action> {
    seq![Action::MouseGoto(p)] + click_actions()
}

/// Appending `d1` then `d2` appends `d1 + d2`.
pub proof fn lemma_appended_twice(
    v0: Seq<DeltaRecord>,
    v1: Seq<DeltaRecord>,
    v2: Seq<DeltaRecord>,
    d1: Seq<GameStateDelta>,
    d2: Seq<GameStateDelta>,
)
    requires
        records_appended(v0, v1, d1),
        records_appended(v1, v2, d2),
    ensures
        records_appended(v0, v2, d1 + d2),
{
    assert(v2.take(v0.len() as int) =~= v1.take(v0.len() as int)) by {
        assert forall|i: int| 0 <= i < v0.len() implies v2[i] == v1[i] by {
            assert(v2.take(v1.len() as int)[i] == v1[i]);
        }
    }
    assert forall|k: int| 0 <= k < (d1 + d2).len() implies #[trigger] v2[v0.len() + k].change == (d1
        + d2)[k] by {
        if k < d1.len() {
            assert(v2.take(v1.len() as int)[v0.len() + k] == v1[v0.len() + k]);
        } else {
            assert(v2[v1.len() + (k - d1.len())].change == d2[k - d1.len()]);
        }
    }
}

/// What a push leaves behind: every earlier record is still at its index, and the pushed
/// change is at the old length, the new last index.
pub proof fn lemma_push_then_get<const BLOCK_CAP: usize>(
    before: GameStateHistory<BLOCK_CAP>,
    after: GameStateHistory<BLOCK_CAP>,
    delta: GameStateDelta,
)
    requires
        before.wf(),
        after.wf(),
        after.view().len() == before.view().len() + 1,
        after.view().drop_last() == before.view(),
        after.view().last().change == delta,
    ensures
        forall|i: int| 0 <= i < before.view().len() ==> #[trigger] after.view()[i] == before.view()[i],
        after.view()[before.view().len() as int].change == delta,
        after.view().len() > 0,
{
    assert forall|i: int| 0 <= i < before.view().len() implies #[trigger] after.view()[i]
        == before.view()[i] by {
        assert(after.view().drop_last()[i] == after.view()[i]);
    }
}

/// `after` is `before` with one record of `delta` pushed, as [`GameStateHistory::push`]
/// leaves it.
pub open spec fn pushed<const BLOCK_CAP: usize>(
    before: GameStateHistory<BLOCK_CAP>,
    after: GameStateHistory<BLOCK_CAP>,
    delta: GameStateDelta,
) -> bool {
    &&& after.view().len() == before.view().len() + 1
    &&& after.view().drop_last() == before.view()
    &&& after.view().last().change == delta
}

/// Pushing `deltas` one after another onto an empty history leaves exactly one record per push,
/// in push order: the history's length (what `len` reports for a nonzero capacity) is the
/// number of pushes, record `i` (what `get(i)` and `iter` give) holds the `i`th change, and
/// there is no record past the last push.
pub proof fn lemma_pushes_read_back<const BLOCK_CAP: usize>(
    hs: Seq<GameStateHistory<BLOCK_CAP>>,
    deltas: Seq<GameStateDelta>,
)
    requires
        hs.len() == deltas.len() + 1,
        hs[0].view().len() == 0,
        forall|i: int| 0 <= i < deltas.len() ==> pushed(hs[i], hs[i + 1], #[trigger] deltas[i]),
    ensures
        hs.last().view().len() == deltas.len(),
        forall|i: int| 0 <= i < deltas.len() ==> #[trigger] hs.last().view()[i].change == deltas[i],
    decreases deltas.len(),
{
    let m = deltas.len() as int;
    if m > 0 {
        let hs0 = hs.drop_last();
        let d0 = deltas.drop_last();
        assert forall|i: int| 0 <= i < d0.len() implies pushed(hs0[i], hs0[i + 1], #[trigger] d0[i]) by {
            assert(pushed(hs[i], hs[i + 1], deltas[i]));
        }
        lemma_pushes_read_back(hs0, d0);
        assert(hs0.last() == hs[m - 1]);
        assert(pushed(hs[m - 1], hs[m], deltas[m - 1]));
        assert forall|i: int| 0 <= i < deltas.len() implies #[trigger] hs.last().view()[i].change
            == deltas[i] by {
            if i < m - 1 {
                assert(hs.last().view().drop_last()[i] == hs.last().view()[i]);
                assert(d0[i] == deltas[i]);
            }
        }
    }
}

} // verus!
