//! The playbook: the player's routines, as steps that end wherever the player has to act on
//! the game and look at the screen again before it can decide what comes next.
//!
//! A routine starts with one of the `GameState` methods named after it and goes on with
//! [`GameState::resume`]. Each step records what the player did, and returns the inputs to
//! send and what to wait for: new button counts after the monitor was toggled, a new reading
//! of Nightmare Balloon Boy, or nothing because the routine is done.
use vstd::prelude::*;

use crate::game_state::{
    button_pos, camera_button, has_flag, state_of, update_state_spec,
    Button, Camera, GameData, GameState, OfficeData, State, StateData, UpdateStateError,
    VENTILATION_NEEDS_RESET_FLAG,
};
use crate::history::{
    click_at_actions, click_at_deltas, lemma_appended_twice, records_appended, tap_actions,
    tap_deltas, GameStateDelta,
};
use crate::input::{Action, VirtualKey};
use crate::ivec2::IVec2;
use crate::{CAM_RESP_MS, DECISECS_PER_HOUR, DECISECS_PER_SEC, MS_PER_DECISEC};

verus! {

/// What is left to do once the monitor is up and the state has been updated.
#[derive(Debug, Clone, Copy, PartialEq, Eq, Structural)]
pub enum Cont {
    /// Nothing: the routine is done.
    Stop,
    /// Enter the given state, on the given camera if it is the camera state.
    Enter(State, Camera),
    /// Click the vent reset button; then, within the whole playbook, go on to the
    /// Funtime Foxy check.
    VentClicks(bool),
    /// Go to camera 6 for Funtime Foxy's show; within the whole playbook, wait a little after.
    FoxyClicks(bool),
}

/// Where a routine stands between two steps.
#[derive(Debug, Clone, Copy, PartialEq, Eq)]
pub enum Pc {
    /// Waiting for the button counts of a fresh capture, taken after the monitor was toggled.
    AwaitButtons(Cont),
    /// Waiting for a reading of whether Nightmare Balloon Boy stands: the first, or the
    /// second after flashing him; within the whole playbook or alone.
    AwaitNmbb { second: bool, act: bool },
    /// The routine is over, with this result.
    Done(Result<(), UpdateStateError>),
}

/// What the player saw, to go on with a routine.
#[derive(Debug, Clone, Copy, PartialEq, Eq)]
pub enum Event {
    /// How many samples of each system button (camera, vent, duct) and each camera button
    /// matched their lit color.
    Buttons([i32; 3], [i32; 8]),
    /// Whether Nightmare Balloon Boy stands.
    Nmbb(bool),
}

/// One step of a routine: the inputs to send, in order, then what to wait for.
#[derive(Debug)]
pub struct Step {
    pub actions: Vec<Action>,
    pub next: Pc,
}

/// What a step makes of the state data and the game data, what it records and sends, and
/// where the routine stands after it.
pub struct Outcome {
    pub state: StateData,
    pub game: GameData,
    pub deltas: Seq<GameStateDelta>,
    pub actions: Seq<Action>,
    pub next: Pc,
}

/// The position of a button, as a vector.
pub open spec fn button_vec(b: Button) -> IVec2 {
    IVec2 { x: button_pos(b).0 as i32, y: button_pos(b).1 as i32 }
}

/// How long the player waits after clicking a system button, in milliseconds.
pub const SYSTEM_SWITCH_MS: u64 = 1;

/// How long the player waits after resetting the vents or going to Funtime Foxy's show, in
/// milliseconds.
pub const AFTER_CHORE_MS: u64 = 10;

/// Deciseconds before the hour at which the player goes to Funtime Foxy's show: a second, and
/// the time the camera takes to respond.
pub const FOXY_LEAD_DECISECS: u16 = 13;

/// Toggling the monitor: tap the camera key, wait for the camera to respond, then wait for
/// fresh button counts before `cont`.
pub open spec fn toggle_outcome(sd: StateData, g: GameData, cont: Cont) -> Outcome {
    Outcome {
        state: sd,
        game: g,
        deltas: tap_deltas(VirtualKey::CameraToggle),
        actions: tap_actions(VirtualKey::CameraToggle).push(Action::SleepMs(CAM_RESP_MS as u64)),
        next: Pc::AwaitButtons(cont),
    }
}

/// Nothing recorded or sent; the routine ends with `r`.
pub open spec fn done_outcome(sd: StateData, g: GameData, r: Result<(), UpdateStateError>) -> Outcome {
    Outcome { state: sd, game: g, deltas: Seq::empty(), actions: Seq::empty(), next: Pc::Done(r) }
}

/// Clicking the buttons for Funtime Foxy's show: the camera system if it is not up, then
/// camera 6.
pub open spec fn foxy_clicks(sd: StateData, g: GameData, act: bool) -> Outcome {
    let sys_deltas = if state_of(sd) != State::Camera {
        click_at_deltas(button_vec(Button::CameraSystem))
    } else {
        Seq::empty()
    };
    let sys_actions = if state_of(sd) != State::Camera {
        click_at_actions(button_vec(Button::CameraSystem))
    } else {
        Seq::empty()
    };
    let actions = sys_actions.push(Action::SleepMs(SYSTEM_SWITCH_MS)) + click_at_actions(
        button_vec(Button::Cam06),
    );
    Outcome {
        state: sd,
        game: g,
        deltas: sys_deltas + click_at_deltas(button_vec(Button::Cam06)),
        actions: if act {
            actions.push(Action::SleepMs(AFTER_CHORE_MS))
        } else {
            actions
        },
        next: Pc::Done(Ok(())),
    }
}

/// Bringing the monitor up for Funtime Foxy's show, then clicking to it.
pub open spec fn open_monitor_foxy(sd: StateData, g: GameData) -> Outcome {
    if state_of(sd) == State::Office {
        toggle_outcome(sd, g, Cont::FoxyClicks(true))
    } else {
        foxy_clicks(sd, g, true)
    }
}

/// Deciseconds left before the next hour of the night.
pub open spec fn deciseconds_to_hour(g: GameData) -> int {
    DECISECS_PER_HOUR - (g.time.last_trusted.deciseconds - g.time.last_trusted.hour_spec() * 450)
}

/// Within the whole playbook: go to Funtime Foxy's show if the hour is about to strike.
pub open spec fn foxy_check(sd: StateData, g: GameData) -> Outcome {
    if deciseconds_to_hour(g) <= FOXY_LEAD_DECISECS {
        open_monitor_foxy(sd, g)
    } else {
        done_outcome(sd, g, Ok(()))
    }
}

/// Clicking the vent reset button and marking the ventilation as reset; within the whole
/// playbook, then the Funtime Foxy check.
pub open spec fn vent_clicks(sd: StateData, g: GameData, act: bool) -> Outcome {
    let g1 = GameData { flags: g.flags & !VENTILATION_NEEDS_RESET_FLAG, ..g };
    let d = click_at_deltas(button_vec(Button::ResetVent)).push(
        GameStateDelta::VentilationResetNeeded(false),
    );
    let a = click_at_actions(button_vec(Button::ResetVent)).push(Action::SleepMs(AFTER_CHORE_MS));
    if act {
        let rest = foxy_check(sd, g1);
        Outcome {
            state: rest.state,
            game: rest.game,
            deltas: d + rest.deltas,
            actions: a + rest.actions,
            next: rest.next,
        }
    } else {
        Outcome { state: sd, game: g1, deltas: d, actions: a, next: Pc::Done(Ok(())) }
    }
}

/// Entering `new` (on camera `cam`) once the monitor is as it should be.
pub open spec fn enter_clicks(sd: StateData, g: GameData, new: State, cam: Camera) -> Outcome {
    let (d, a) = match new {
        State::Office => (Seq::<GameStateDelta>::empty(), Seq::<Action>::empty()),
        State::Camera => match sd {
            StateData::Camera(cd) => if cd.camera != cam {
                (
                    click_at_deltas(button_vec(camera_button(cam))),
                    click_at_actions(button_vec(camera_button(cam))),
                )
            } else {
                (Seq::empty(), Seq::empty())
            },
            _ => (Seq::empty(), Seq::empty()),
        },
        State::Duct => (
            click_at_deltas(button_vec(Button::DuctSystem)),
            click_at_actions(button_vec(Button::DuctSystem)),
        ),
        State::Vent => (
            click_at_deltas(button_vec(Button::VentSystem)),
            click_at_actions(button_vec(Button::VentSystem)),
        ),
    };
    Outcome {
        state: sd,
        game: g,
        deltas: d,
        actions: a.push(Action::SleepMs(SYSTEM_SWITCH_MS)),
        next: Pc::Done(Ok(())),
    }
}

/// What is left of a routine once the monitor is up and the state has been updated.
pub open spec fn run_cont(sd: StateData, g: GameData, cont: Cont) -> Outcome {
    match cont {
        Cont::Stop => done_outcome(sd, g, Ok(())),
        Cont::Enter(new, cam) => enter_clicks(sd, g, new, cam),
        Cont::VentClicks(act) => vent_clicks(sd, g, act),
        Cont::FoxyClicks(act) => foxy_clicks(sd, g, act),
    }
}

/// Bringing the monitor up if we are in the office, then going on with `cont`.
pub open spec fn open_monitor(sd: StateData, g: GameData, cont: Cont) -> Outcome {
    if state_of(sd) == State::Office {
        toggle_outcome(sd, g, cont)
    } else {
        run_cont(sd, g, cont)
    }
}

/// Within the whole playbook, after Nightmare Balloon Boy: reset the vents if they need it,
/// else the Funtime Foxy check.
pub open spec fn vent_check(sd: StateData, g: GameData) -> Outcome {
    if has_flag(g.flags, VENTILATION_NEEDS_RESET_FLAG) {
        open_monitor(sd, g, Cont::VentClicks(true))
    } else {
        foxy_check(sd, g)
    }
}

/// The player's routines.
#[derive(Debug, Clone, Copy, PartialEq, Eq, Structural)]
pub enum Routine {
    /// Toggle the monitor.
    ToggleMonitor,
    /// Bring the monitor up if we are in the office.
    OpenMonitorIfClosed,
    /// Enter a state, on the given camera if it is the camera state.
    EnterGameState(State, Camera),
    /// Go to camera 6 for Funtime Foxy's show.
    HandleFuntimeFoxy,
    /// Reset the vents.
    ResetVents,
    /// Check on Nightmare Balloon Boy, and flash him if he stands.
    HandleNmbb,
    /// Everything, in order of priority: Nightmare Balloon Boy, the vents, Funtime Foxy.
    ActOnGameData,
}

/// The first step of `routine`.
pub open spec fn start_spec(sd: StateData, g: GameData, routine: Routine) -> Outcome {
    match routine {
        Routine::ToggleMonitor => toggle_outcome(sd, g, Cont::Stop),
        Routine::OpenMonitorIfClosed => open_monitor(sd, g, Cont::Stop),
        Routine::EnterGameState(new, cam) => {
            let cur = state_of(sd);
            if cur != new {
                if (cur == State::Office) != (new == State::Office) {
                    toggle_outcome(sd, g, Cont::Enter(new, cam))
                } else {
                    enter_clicks(sd, g, new, cam)
                }
            } else {
                done_outcome(sd, g, Ok(()))
            }
        },
        Routine::HandleFuntimeFoxy => open_monitor(sd, g, Cont::FoxyClicks(false)),
        Routine::ResetVents => open_monitor(sd, g, Cont::VentClicks(false)),
        Routine::HandleNmbb => if state_of(sd) == State::Office {
            Outcome {
                state: sd,
                game: g,
                deltas: Seq::empty(),
                actions: Seq::empty(),
                next: Pc::AwaitNmbb { second: false, act: false },
            }
        } else {
            done_outcome(sd, g, Ok(()))
        },
        Routine::ActOnGameData => match sd {
            StateData::Office(od) => if od.is_nmbb_standing {
                Outcome {
                    state: sd,
                    game: g,
                    deltas: Seq::empty(),
                    actions: Seq::empty(),
                    next: Pc::AwaitNmbb { second: false, act: true },
                }
            } else {
                vent_check(sd, g)
            },
            _ => vent_check(sd, g),
        },
    }
}

/// `rest`, after `deltas` were recorded and `actions` sent.
pub open spec fn after(deltas: Seq<GameStateDelta>, actions: Seq<Action>, rest: Outcome) -> Outcome {
    Outcome {
        state: rest.state,
        game: rest.game,
        deltas: deltas + rest.deltas,
        actions: actions + rest.actions,
        next: rest.next,
    }
}

/// The step that goes on from `pc` with what the player saw.
pub open spec fn resume_spec(sd: StateData, g: GameData, pc: Pc, event: Event) -> Outcome {
    match (pc, event) {
        (Pc::AwaitButtons(cont), Event::Buttons(sys, cam)) => {
            let (sd1, d1, r) = update_state_spec(sd, sys@, cam@);
            if r is Err {
                Outcome { state: sd1, game: g, deltas: d1, actions: Seq::empty(), next: Pc::Done(r) }
            } else {
                after(d1, Seq::empty(), run_cont(sd1, g, cont))
            }
        },
        (Pc::AwaitNmbb { second, act }, Event::Nmbb(standing)) => {
            let sd1 = match sd {
                StateData::Office(od) => StateData::Office(
                    OfficeData { is_nmbb_standing: standing, ..od },
                ),
                _ => sd,
            };
            let d1 = seq![GameStateDelta::IsNmbbStanding(standing)];
            if !second && standing {
                Outcome {
                    state: sd1,
                    game: g,
                    deltas: d1 + tap_deltas(VirtualKey::Flashlight),
                    actions: tap_actions(VirtualKey::Flashlight),
                    next: Pc::AwaitNmbb { second: true, act },
                }
            } else if act {
                after(d1, Seq::empty(), vent_check(sd1, g))
            } else {
                Outcome { state: sd1, game: g, deltas: d1, actions: Seq::empty(), next: Pc::Done(Ok(())) }
            }
        },
        _ => Outcome { state: sd, game: g, deltas: Seq::empty(), actions: Seq::empty(), next: pc },
    }
}


/// Whether `event` is what `pc` waits for.
pub open spec fn awaits(pc: Pc, event: Event) -> bool {
    match (pc, event) {
        (Pc::AwaitButtons(_), Event::Buttons(_, _)) => true,
        (Pc::AwaitNmbb { .. }, Event::Nmbb(_)) => true,
        _ => false,
    }
}

/// How many more awaited readings a routine can take, at most, before it is done.
pub open spec fn steps_left(pc: Pc) -> nat {
    match pc {
        Pc::Done(_) => 0,
        Pc::AwaitButtons(Cont::VentClicks(true)) => 2,
        Pc::AwaitButtons(_) => 1,
        Pc::AwaitNmbb { second, act } => (if second {
            0nat
        } else {
            1nat
        }) + (if act {
            3nat
        } else {
            1nat
        }),
    }
}

/// Every routine ends: it starts at most four readings away from done, and each awaited
/// reading brings it strictly closer.
pub proof fn lemma_routines_end(sd: StateData, g: GameData, routine: Routine, pc: Pc, event: Event)
    ensures
        steps_left(start_spec(sd, g, routine).next) <= 4,
        pc !is Done && awaits(pc, event) ==> steps_left(resume_spec(sd, g, pc, event).next)
            < steps_left(pc),
{
}

/// Entering the state the game is already in sends and records nothing.
pub proof fn lemma_enter_current_state_is_noop(sd: StateData, g: GameData, cam: Camera)
    ensures
        start_spec(sd, g, Routine::EnterGameState(state_of(sd), cam)) == done_outcome(
            sd,
            g,
            Ok(()),
        ),
{
}

/// The inputs that bring the monitor up or down: tap the camera key, then wait for the camera.
pub open spec fn monitor_toggle_actions() -> Seq<Action> {
    seq![
        Action::KeyDown(VirtualKey::CameraToggle),
        Action::SleepMs(8),
        Action::KeyUp(VirtualKey::CameraToggle),
        Action::SleepMs(300),
    ]
}

/// The inputs that click the button at `(x, y)`.
pub open spec fn click_inputs(x: int, y: int) -> Seq<Action> {
    seq![
        Action::MouseGoto(IVec2 { x: x as i32, y: y as i32 }),
        Action::MouseDown,
        Action::SleepMs(8),
        Action::MouseUp,
    ]
}

/// Entering the camera state on camera `cam` while the monitor shows another camera clicks
/// `cam`'s button, then waits; on the camera already shown it clicks nothing. The same holds
/// once the monitor is up after it was brought up for that purpose.
pub proof fn lemma_entering_a_camera_clicks_its_button(
    sd: StateData,
    g: GameData,
    cam: Camera,
    sys: [i32; 3],
    cams: [i32; 8],
)
    ensures
        sd matches StateData::Camera(cd) ==> (cd.camera != cam ==> {
            &&& enter_clicks(sd, g, State::Camera, cam).actions == click_inputs(
                button_pos(camera_button(cam)).0,
                button_pos(camera_button(cam)).1,
            ).push(Action::SleepMs(1))
            &&& enter_clicks(sd, g, State::Camera, cam).deltas == click_at_deltas(
                IVec2 {
                    x: button_pos(camera_button(cam)).0 as i32,
                    y: button_pos(camera_button(cam)).1 as i32,
                },
            )
        }),
        sd matches StateData::Camera(cd) ==> (cd.camera == cam ==> enter_clicks(
            sd,
            g,
            State::Camera,
            cam,
        ).actions == seq![Action::SleepMs(1)]),
        ({
            let (sd1, d1, r1) = update_state_spec(sd, sys@, cams@);
            let o = resume_spec(sd, g, Pc::AwaitButtons(Cont::Enter(State::Camera, cam)), Event::Buttons(sys, cams));
            r1 is Ok ==> (sd1 matches StateData::Camera(cd1) ==> (cd1.camera != cam ==> o.actions
                == click_inputs(button_pos(camera_button(cam)).0, button_pos(camera_button(cam)).1).push(
                Action::SleepMs(1),
            ) && o.next == Pc::Done(Ok(()))))
        }),
{
    assert(click_at_actions(button_vec(camera_button(cam))) =~= click_inputs(
        button_pos(camera_button(cam)).0,
        button_pos(camera_button(cam)).1,
    ));
    let (sd1, d1, r1) = update_state_spec(sd, sys@, cams@);
    let o = resume_spec(sd, g, Pc::AwaitButtons(Cont::Enter(State::Camera, cam)), Event::Buttons(sys, cams));
    if r1 is Ok {
        if let StateData::Camera(cd1) = sd1 {
            if cd1.camera != cam {
                assert(Seq::<Action>::empty() + click_inputs(
                    button_pos(camera_button(cam)).0,
                    button_pos(camera_button(cam)).1,
                ).push(Action::SleepMs(1)) =~= click_inputs(
                    button_pos(camera_button(cam)).0,
                    button_pos(camera_button(cam)).1,
                ).push(Action::SleepMs(1)));
            }
        }
    }
}

/// From the office nothing on the monitor can be clicked: the first step of every routine
/// sends nothing, or only the monitor toggle and then waits for the buttons of a fresh capture.
/// Going on after a reading of Nightmare Balloon Boy in the office sends nothing, the
/// flashlight tap, or the monitor toggle.
pub proof fn lemma_office_toggles_before_clicking(
    sd: StateData,
    g: GameData,
    routine: Routine,
    second: bool,
    act: bool,
    standing: bool,
)
    requires
        state_of(sd) == State::Office,
    ensures
        start_spec(sd, g, routine).actions.len() == 0 || (start_spec(sd, g, routine).actions
            == monitor_toggle_actions() && start_spec(sd, g, routine).next is AwaitButtons),
        ({
            let o = resume_spec(sd, g, Pc::AwaitNmbb { second, act }, Event::Nmbb(standing));
            ||| o.actions.len() == 0
            ||| o.actions == tap_actions(VirtualKey::Flashlight)
            ||| (o.actions == monitor_toggle_actions() && o.next is AwaitButtons)
        }),
{
    assert(tap_actions(VirtualKey::CameraToggle).push(Action::SleepMs(CAM_RESP_MS as u64))
        =~= monitor_toggle_actions());
    let o = resume_spec(sd, g, Pc::AwaitNmbb { second, act }, Event::Nmbb(standing));
    assert(Seq::<Action>::empty() + monitor_toggle_actions() =~= monitor_toggle_actions());
    assert(Seq::<Action>::empty() + Seq::<Action>::empty() =~= Seq::<Action>::empty());
}

/// `new` is what `old` becomes, having recorded `o.deltas` and sent `actions`, which are
/// `o.actions`.
pub open spec fn achieves<const BLOCK_CAP: usize>(
    old: &GameState<BLOCK_CAP>,
    new: &GameState<BLOCK_CAP>,
    step: &Step,
    o: Outcome,
) -> bool {
    &&& new.state == o.state
    &&& new.game == o.game
    &&& new.hist.wf()
    &&& records_appended(old.hist.view(), new.hist.view(), o.deltas)
    &&& step.actions@ == o.actions
    &&& step.next == o.next
}

/// The history has room for the records of a step.
pub open spec fn has_room<const BLOCK_CAP: usize>(g: &GameState<BLOCK_CAP>, n: int) -> bool {
    &&& g.hist.wf()
    &&& g.hist.view().len() + n <= usize::MAX
}

/// A step with nothing recorded or sent, ending with `r`.
fn done_step(r: Result<(), UpdateStateError>) -> (s: Step)
    ensures
        s.actions@ == Seq::<Action>::empty(),
        s.next == Pc::Done(r),
{
    Step { actions: Vec::new(), next: Pc::Done(r) }
}

proof fn lemma_nothing_appended(v: Seq<crate::history::DeltaRecord>)
    ensures
        records_appended(v, v, Seq::empty()),
{
    assert(v.take(v.len() as int) =~= v);
}

impl<const BLOCK_CAP: usize> GameState<BLOCK_CAP> {
    fn toggle_step(&mut self, cont: Cont) -> (s: Step)
        requires
            has_room(old(self), 2),
        ensures
            achieves(old(self), final(self), &s, toggle_outcome(old(self).state, old(self).game, cont)),
    {
        let mut actions = self.hist.sim_key_tap(VirtualKey::CameraToggle);
        actions.push(Action::SleepMs(CAM_RESP_MS as u64));
        Step { actions, next: Pc::AwaitButtons(cont) }
    }

    fn foxy_clicks_step(&mut self, act: bool) -> (s: Step)
        requires
            has_room(old(self), 6),
        ensures
            achieves(old(self), final(self), &s, foxy_clicks(old(self).state, old(self).game, act)),
    {
        let ghost v0 = self.hist.view();
        let mut actions: Vec<Action> = Vec::new();
        if self.state() != State::Camera {
            actions = self.hist.sim_mouse_click_at(Button::from_state(State::Camera).pos());
        } else {
            proof {
                lemma_nothing_appended(v0);
            }
        }
        let ghost v1 = self.hist.view();
        let ghost d1 = foxy_clicks(old(self).state, old(self).game, act).deltas.take(
            (v1.len() - v0.len()) as int,
        );
        actions.push(Action::SleepMs(SYSTEM_SWITCH_MS));
        let mut cam = self.hist.sim_mouse_click_at(Button::Cam06.pos());
        actions.append(&mut cam);
        if act {
            actions.push(Action::SleepMs(AFTER_CHORE_MS));
        }
        proof {
            let sys_deltas = if state_of(old(self).state) != State::Camera {
                click_at_deltas(button_vec(Button::CameraSystem))
            } else {
                Seq::empty()
            };
            lemma_appended_twice(
                v0,
                v1,
                self.hist.view(),
                sys_deltas,
                click_at_deltas(button_vec(Button::Cam06)),
            );
        }
        Step { actions, next: Pc::Done(Ok(())) }
    }

    fn open_monitor_foxy_step(&mut self) -> (s: Step)
        requires
            has_room(old(self), 6),
        ensures
            achieves(old(self), final(self), &s, open_monitor_foxy(old(self).state, old(self).game)),
    {
        if self.state() == State::Office {
            self.toggle_step(Cont::FoxyClicks(true))
        } else {
            self.foxy_clicks_step(true)
        }
    }

    fn foxy_check_step(&mut self) -> (s: Step)
        requires
            has_room(old(self), 6),
        ensures
            achieves(old(self), final(self), &s, foxy_check(old(self).state, old(self).game)),
    {
        let since = self.game.time.last_trusted.deciseconds_since_hour();
        if DECISECS_PER_HOUR - since <= DECISECS_PER_SEC + (CAM_RESP_MS / MS_PER_DECISEC) {
            self.open_monitor_foxy_step()
        } else {
            proof {
                lemma_nothing_appended(self.hist.view());
            }
            done_step(Ok(()))
        }
    }

    fn vent_clicks_step(&mut self, act: bool) -> (s: Step)
        requires
            has_room(old(self), 10),
        ensures
            achieves(old(self), final(self), &s, vent_clicks(old(self).state, old(self).game, act)),
    {
        let ghost v0 = self.hist.view();
        let mut actions = self.hist.sim_mouse_click_at(Button::ResetVent.pos());
        let ghost v1 = self.hist.view();
        self.game.mark_ventilation_has_been_reset(&mut self.hist);
        let ghost v2 = self.hist.view();
        actions.push(Action::SleepMs(AFTER_CHORE_MS));
        let ghost d = click_at_deltas(button_vec(Button::ResetVent)).push(
            GameStateDelta::VentilationResetNeeded(false),
        );
        proof {
            lemma_appended_twice(
                v0,
                v1,
                v2,
                click_at_deltas(button_vec(Button::ResetVent)),
                seq![GameStateDelta::VentilationResetNeeded(false)],
            );
            assert(click_at_deltas(button_vec(Button::ResetVent)) + seq![
                GameStateDelta::VentilationResetNeeded(false),
            ] =~= d);
        }
        if act {
            let mut rest = self.foxy_check_step();
            proof {
                let r = foxy_check(old(self).state, GameData { flags: old(self).game.flags & !VENTILATION_NEEDS_RESET_FLAG, ..old(self).game });
                lemma_appended_twice(v0, v2, self.hist.view(), d, r.deltas);
            }
            actions.append(&mut rest.actions);
            Step { actions, next: rest.next }
        } else {
            Step { actions, next: Pc::Done(Ok(())) }
        }
    }

    fn enter_clicks_step(&mut self, new: State, cam: Camera) -> (s: Step)
        requires
            has_room(old(self), 3),
        ensures
            achieves(old(self), final(self), &s, enter_clicks(old(self).state, old(self).game, new, cam)),
    {
        let mut actions: Vec<Action> = Vec::new();
        proof {
            lemma_nothing_appended(self.hist.view());
        }
        match new {
            State::Office => {},
            State::Camera => {
                if let StateData::Camera(cd) = self.state {
                    if cd.camera != cam {
                        actions = self.hist.sim_mouse_click_at(Button::from(cam).pos());
                    }
                }
            },
            State::Duct => {
                actions = self.hist.sim_mouse_click_at(Button::DuctSystem.pos());
            },
            State::Vent => {
                actions = self.hist.sim_mouse_click_at(Button::VentSystem.pos());
            },
        }
        actions.push(Action::SleepMs(SYSTEM_SWITCH_MS));
        Step { actions, next: Pc::Done(Ok(())) }
    }

    fn run_cont_step(&mut self, cont: Cont) -> (s: Step)
        requires
            has_room(old(self), 16),
        ensures
            achieves(old(self), final(self), &s, run_cont(old(self).state, old(self).game, cont)),
    {
        match cont {
            Cont::Stop => {
                proof {
                    lemma_nothing_appended(self.hist.view());
                }
                done_step(Ok(()))
            },
            Cont::Enter(new, cam) => self.enter_clicks_step(new, cam),
            Cont::VentClicks(act) => self.vent_clicks_step(act),
            Cont::FoxyClicks(act) => self.foxy_clicks_step(act),
        }
    }

    fn open_monitor_step(&mut self, cont: Cont) -> (s: Step)
        requires
            has_room(old(self), 16),
        ensures
            achieves(old(self), final(self), &s, open_monitor(old(self).state, old(self).game, cont)),
    {
        if self.state() == State::Office {
            self.toggle_step(cont)
        } else {
            self.run_cont_step(cont)
        }
    }

    fn vent_check_step(&mut self) -> (s: Step)
        requires
            has_room(old(self), 16),
        ensures
            achieves(old(self), final(self), &s, vent_check(old(self).state, old(self).game)),
    {
        if self.game.is_ventilation_reset_needed() {
            self.open_monitor_step(Cont::VentClicks(true))
        } else {
            self.foxy_check_step()
        }
    }

    /// The first step of `routine`.
    pub fn start(&mut self, routine: Routine) -> (s: Step)
        requires
            has_room(old(self), 32),
        ensures
            achieves(old(self), final(self), &s, start_spec(old(self).state, old(self).game, routine)),
    {
        match routine {
            Routine::ToggleMonitor => self.toggle_step(Cont::Stop),
            Routine::OpenMonitorIfClosed => self.open_monitor_step(Cont::Stop),
            Routine::EnterGameState(new, cam) => {
                let cur = self.state();
                if cur != new {
                    if (cur == State::Office) != (new == State::Office) {
                        self.toggle_step(Cont::Enter(new, cam))
                    } else {
                        self.enter_clicks_step(new, cam)
                    }
                } else {
                    proof {
                        lemma_nothing_appended(self.hist.view());
                    }
                    done_step(Ok(()))
                }
            },
            Routine::HandleFuntimeFoxy => self.open_monitor_step(Cont::FoxyClicks(false)),
            Routine::ResetVents => self.open_monitor_step(Cont::VentClicks(false)),
            Routine::HandleNmbb => {
                proof {
                    lemma_nothing_appended(self.hist.view());
                }
                if self.state() == State::Office {
                    Step { actions: Vec::new(), next: Pc::AwaitNmbb { second: false, act: false } }
                } else {
                    done_step(Ok(()))
                }
            },
            Routine::ActOnGameData => {
                if let StateData::Office(od) = self.state {
                    if od.is_nmbb_standing {
                        proof {
                            lemma_nothing_appended(self.hist.view());
                        }
                        return Step {
                            actions: Vec::new(),
                            next: Pc::AwaitNmbb { second: false, act: true },
                        };
                    }
                }
                self.vent_check_step()
            },
        }
    }

    /// The step that goes on from `pc` with what the player saw; an event that `pc` does not
    /// wait for changes nothing.
    pub fn resume(&mut self, pc: Pc, event: Event) -> (s: Step)
        requires
            has_room(old(self), 32),
        ensures
            achieves(old(self), final(self), &s, resume_spec(old(self).state, old(self).game, pc, event)),
    {
        let ghost v0 = self.hist.view();
        match (pc, event) {
            (Pc::AwaitButtons(cont), Event::Buttons(sys, cam)) => {
                let r = self.update_state(sys, cam);
                match r {
                    Err(e) => Step { actions: Vec::new(), next: Pc::Done(Err(e)) },
                    Ok(()) => {
                        let ghost v1 = self.hist.view();
                        let rest = self.run_cont_step(cont);
                        proof {
                            let (sd1, d1, r1) = update_state_spec(old(self).state, sys@, cam@);
                            lemma_appended_twice(v0, v1, self.hist.view(), d1, run_cont(sd1, old(self).game, cont).deltas);
                            assert(Seq::<Action>::empty() + rest.actions@ =~= rest.actions@);
                        }
                        rest
                    },
                }
            },
            (Pc::AwaitNmbb { second, act }, Event::Nmbb(standing)) => {
                if let StateData::Office(od) = self.state {
                    self.state = StateData::Office(OfficeData { is_nmbb_standing: standing, ..od });
                }
                self.hist.record(GameStateDelta::IsNmbbStanding(standing));
                let ghost v1 = self.hist.view();
                let ghost d1 = seq![GameStateDelta::IsNmbbStanding(standing)];
                if !second && standing {
                    let actions = self.hist.sim_key_tap(VirtualKey::Flashlight);
                    proof {
                        lemma_appended_twice(v0, v1, self.hist.view(), d1, tap_deltas(VirtualKey::Flashlight));
                    }
                    Step { actions, next: Pc::AwaitNmbb { second: true, act } }
                } else if act {
                    let ghost sd1 = self.state;
                    let rest = self.vent_check_step();
                    proof {
                        lemma_appended_twice(v0, v1, self.hist.view(), d1, vent_check(sd1, old(self).game).deltas);
                        assert(Seq::<Action>::empty() + rest.actions@ =~= rest.actions@);
                    }
                    rest
                } else {
                    Step { actions: Vec::new(), next: Pc::Done(Ok(())) }
                }
            },
            _ => {
                proof {
                    lemma_nothing_appended(v0);
                }
                Step { actions: Vec::new(), next: pc }
            },
        }
    }

    /// Starts [`Routine::ToggleMonitor`]: tap the camera key, then update the state from
    /// fresh button counts.
    pub fn toggle_monitor(&mut self) -> (s: Step)
        requires
            has_room(old(self), 32),
        ensures
            achieves(old(self), final(self), &s, start_spec(old(self).state, old(self).game, Routine::ToggleMonitor)),
    {
        self.start(Routine::ToggleMonitor)
    }

    /// Starts [`Routine::OpenMonitorIfClosed`].
    pub fn open_monitor_if_closed(&mut self) -> (s: Step)
        requires
            has_room(old(self), 32),
        ensures
            achieves(old(self), final(self), &s, start_spec(old(self).state, old(self).game, Routine::OpenMonitorIfClosed)),
    {
        self.start(Routine::OpenMonitorIfClosed)
    }

    /// Starts [`Routine::EnterGameState`]; `cam` is only used if `new_state` is the camera state.
    pub fn enter_game_state(&mut self, new_state: State, cam: Camera) -> (s: Step)
        requires
            has_room(old(self), 32),
        ensures
            achieves(old(self), final(self), &s, start_spec(old(self).state, old(self).game, Routine::EnterGameState(new_state, cam))),
    {
        self.start(Routine::EnterGameState(new_state, cam))
    }

    /// Starts [`Routine::HandleFuntimeFoxy`].
    pub fn handle_funtime_foxy(&mut self) -> (s: Step)
        requires
            has_room(old(self), 32),
        ensures
            achieves(old(self), final(self), &s, start_spec(old(self).state, old(self).game, Routine::HandleFuntimeFoxy)),
    {
        self.start(Routine::HandleFuntimeFoxy)
    }

    /// Starts [`Routine::ResetVents`].
    pub fn reset_vents(&mut self) -> (s: Step)
        requires
            has_room(old(self), 32),
        ensures
            achieves(old(self), final(self), &s, start_spec(old(self).state, old(self).game, Routine::ResetVents)),
    {
        self.start(Routine::ResetVents)
    }

    /// Starts [`Routine::HandleNmbb`].
    pub fn handle_nmbb(&mut self) -> (s: Step)
        requires
            has_room(old(self), 32),
        ensures
            achieves(old(self), final(self), &s, start_spec(old(self).state, old(self).game, Routine::HandleNmbb)),
    {
        self.start(Routine::HandleNmbb)
    }

    /// Starts [`Routine::ActOnGameData`].
    pub fn act_on_game_data(&mut self) -> (s: Step)
        requires
            has_room(old(self), 32),
        ensures
            achieves(old(self), final(self), &s, start_spec(old(self).state, old(self).game, Routine::ActOnGameData)),
    {
        self.start(Routine::ActOnGameData)
    }
}

} // verus!
