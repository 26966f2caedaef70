//! The round controller: the game's state machine, countdown timer and
//! score. The host calls `tick` once per frame with the elapsed time, the
//! tick's input events, and the field geometry read fresh from its display.

use vstd::prelude::*;

use crate::generate::{generate_round, generated_for, RoundError};
use crate::geometry::FieldGeometry;
use crate::hit::{judge_click, spec_judge, Judgement};
use crate::motion::{
    advance_round, round_missed, spec_moved_round, spec_round_missed, MAX_TARGET_X, MAX_TICK_MS,
};
use crate::round::Round;

verus! {

/// The countdown a playthrough starts with, in milliseconds (60 seconds).
pub const START_TIME_MS: u64 = 60_000;

/// The mutually exclusive phases of the game. `Starting` and
/// `AwaitingRound` are one-shot phases a tick passes through; between ticks
/// the controller rests in `Menu`, `InRound` or `GameOver`.
#[derive(Clone, Copy, PartialEq, Eq, Structural, Debug)]
pub enum AppState {
    Menu,
    Starting,
    AwaitingRound,
    InRound,
    GameOver,
}

/// The per-playthrough session: score, remaining countdown and whether the
/// countdown ran out (the winning way for a playthrough to end).
#[derive(Clone, Copy, PartialEq, Eq, Structural, Debug)]
pub struct GameState {
    pub score: u32,
    pub remaining_ms: u64,
    pub timer_expired: bool,
}

impl GameState {
    /// Whole seconds left on the countdown, as the timer slot displays it.
    pub fn remaining_secs(&self) -> (s: u64)
        ensures
            s == self.remaining_ms / 1000,
    {
        self.remaining_ms / 1000
    }
}

/// One input event, as the host's input source delivers them: a confirm
/// key, an exit key, or a click at a world position in milli-pixels.
#[derive(Clone, Copy, PartialEq, Eq, Structural, Debug)]
pub enum InputEvent {
    Confirm,
    Exit,
    Click { x: i64, y: i64 },
}

/// What the first decisive input of a tick asks for in a menu-like phase.
#[derive(Clone, Copy, PartialEq, Eq, Structural, Debug)]
pub enum ControlAction {
    Start,
    Quit,
}

/// The whole game core: phase, session, the live round if one is on, and a
/// count of rounds spawned so far (saturating, for the host's bookkeeping).
#[derive(Clone, Copy, Debug)]
pub struct Controller {
    pub state: AppState,
    pub session: GameState,
    pub round: Option<Round>,
    pub rounds_generated: u64,
}

/// A fresh session, as entering the starting phase resets it.
pub open spec fn spec_fresh_session() -> GameState {
    GameState { score: 0, remaining_ms: START_TIME_MS, timer_expired: false }
}

/// A score one correct hit later (saturating at the machine bound).
pub open spec fn spec_inc_score(s: u32) -> u32 {
    if s < u32::MAX {
        (s + 1) as u32
    } else {
        s
    }
}

/// A round count one spawn later (saturating at the machine bound).
pub open spec fn spec_inc_rounds(n: u64) -> u64 {
    if n < u64::MAX {
        (n + 1) as u64
    } else {
        n
    }
}

/// The countdown after a tick's elapsed time has been charged.
pub open spec fn spec_countdown(rem: u64, dt: u64) -> u64 {
    if dt >= rem {
        0
    } else {
        (rem - dt) as u64
    }
}

/// The one-shot starting phase: session reset, leftover round cleared, on
/// to awaiting a round.
pub open spec fn spec_starting(c: Controller) -> Controller {
    Controller { state: AppState::AwaitingRound, session: spec_fresh_session(), round: None, ..c }
}

/// Spawning a freshly generated round: into the active phase with the
/// round live and the spawn counted.
pub open spec fn spec_begin_round(c: Controller, rd: Round) -> Controller {
    Controller {
        state: AppState::InRound,
        round: Some(rd),
        rounds_generated: spec_inc_rounds(c.rounds_generated),
        ..c
    }
}

/// The transition a missed target (or a wrong click) forces: straight to
/// game over, both targets despawned, score and timer left as they stand.
pub open spec fn spec_force_game_over(c: Controller) -> Controller {
    Controller { state: AppState::GameOver, round: None, ..c }
}

/// Raising the missed signal twice in one tick has the same effect as
/// raising it once: a single transition to game over.
pub proof fn lemma_missed_idempotent(c: Controller)
    ensures
        spec_force_game_over(spec_force_game_over(c)) == spec_force_game_over(c),
{
}

/// The first decisive input of a tick in a menu-like phase: the earliest
/// confirm or exit event; clicks are ignored there.
pub open spec fn spec_first_control(events: Seq<InputEvent>) -> Option<ControlAction>
    decreases events.len(),
{
    if events.len() == 0 {
        None
    } else {
        match events[0] {
            InputEvent::Confirm => Some(ControlAction::Start),
            InputEvent::Exit => Some(ControlAction::Quit),
            InputEvent::Click { .. } => spec_first_control(events.drop_first()),
        }
    }
}

/// The first judged hit among a tick's clicks, in arrival order; clicks
/// that land on neither target yield no judgement and later events are
/// ignored once a hit is judged.
pub open spec fn spec_first_judgement(events: Seq<InputEvent>, r: Round) -> Judgement
    decreases events.len(),
{
    if events.len() == 0 {
        Judgement::NoHit
    } else {
        match events[0] {
            InputEvent::Click { x, y } => {
                let j = spec_judge(x as int, y as int, r);
                if j is NoHit {
                    spec_first_judgement(events.drop_first(), r)
                } else {
                    j
                }
            },
            _ => spec_first_judgement(events.drop_first(), r),
        }
    }
}

/// One tick of the active phase, and whether a correct hit asks for a new
/// round to be spawned. In order: the countdown is charged (reaching zero
/// ends the playthrough as a win), both targets advance, a missed target
/// forces game over, and otherwise the tick's clicks are judged against the
/// moved targets.
pub open spec fn spec_in_round_step(
    c: Controller,
    dt: u64,
    events: Seq<InputEvent>,
    field: FieldGeometry,
) -> (Controller, bool) {
    if dt >= c.session.remaining_ms {
        (
            Controller {
                state: AppState::GameOver,
                round: None,
                session: GameState { remaining_ms: 0, timer_expired: true, ..c.session },
                ..c
            },
            false,
        )
    } else {
        let rem2 = (c.session.remaining_ms - dt) as u64;
        let moved = spec_moved_round(c.round->Some_0, dt as int);
        let c1 = Controller { session: GameState { remaining_ms: rem2, ..c.session }, ..c };
        if spec_round_missed(moved, field.width as int) {
            (spec_force_game_over(c1), false)
        } else {
            match spec_first_judgement(events, moved) {
                Judgement::HitCorrect => (
                    Controller {
                        state: AppState::AwaitingRound,
                        round: None,
                        session: GameState {
                            score: spec_inc_score(c1.session.score),
                            ..c1.session
                        },
                        ..c1
                    },
                    true,
                ),
                Judgement::HitIncorrect => (spec_force_game_over(c1), false),
                Judgement::NoHit => (Controller { round: Some(moved), ..c1 }, false),
            }
        }
    }
}

/// Whether one tick from this state spawns a round (so its outcome also
/// depends on the generator's draws).
pub open spec fn spec_tick_generates(
    c: Controller,
    dt: u64,
    events: Seq<InputEvent>,
    field: FieldGeometry,
) -> bool {
    match c.state {
        AppState::Menu => spec_first_control(events) == Some(ControlAction::Start),
        AppState::GameOver => spec_first_control(events) == Some(ControlAction::Start),
        AppState::Starting => true,
        AppState::AwaitingRound => true,
        AppState::InRound => spec_in_round_step(c, dt, events, field).1,
    }
}

/// One tick in a menu-like phase, given the round a spawn would draw: a
/// confirm runs the starting and awaiting one-shots through to the active
/// phase, an exit asks the host to terminate, anything else is discarded.
pub open spec fn spec_menu_like(c: Controller, events: Seq<InputEvent>, fresh: Round) -> (
    Controller,
    bool,
) {
    match spec_first_control(events) {
        Some(ControlAction::Start) => (spec_begin_round(spec_starting(c), fresh), false),
        Some(ControlAction::Quit) => (c, true),
        None => (c, false),
    }
}

/// One whole tick, given the round a spawn would draw: the controller after
/// the tick and whether the host should terminate.
pub open spec fn spec_tick(
    c: Controller,
    dt: u64,
    events: Seq<InputEvent>,
    field: FieldGeometry,
    fresh: Round,
) -> (Controller, bool) {
    match c.state {
        AppState::Menu => spec_menu_like(c, events, fresh),
        AppState::GameOver => spec_menu_like(c, events, fresh),
        AppState::Starting => (spec_begin_round(spec_starting(c), fresh), false),
        AppState::AwaitingRound => (spec_begin_round(c, fresh), false),
        AppState::InRound => {
            let sr = spec_in_round_step(c, dt, events, field);
            if sr.1 {
                (spec_begin_round(sr.0, fresh), false)
            } else {
                (sr.0, false)
            }
        },
    }
}

/// Where a tick that asks for a spawn stands when the field is invalid and
/// generation is refused: at the point just before the spawn.
pub open spec fn spec_tick_blocked(
    c: Controller,
    dt: u64,
    events: Seq<InputEvent>,
    field: FieldGeometry,
) -> Controller {
    match c.state {
        AppState::Menu => spec_starting(c),
        AppState::GameOver => spec_starting(c),
        AppState::Starting => spec_starting(c),
        AppState::AwaitingRound => c,
        AppState::InRound => spec_in_round_step(c, dt, events, field).0,
    }
}

impl Controller {
    /// The controller invariant: a round is live exactly in the active
    /// phase, a live round is well-formed with both targets inside the
    /// motion bound, and phases that lead into or through a round still
    /// have countdown left.
    pub open spec fn wf(self) -> bool {
        &&& (self.state is InRound <==> self.round is Some)
        &&& (self.round matches Some(rd) ==> rd.wf() && rd.correct_target.x <= MAX_TARGET_X
            && rd.incorrect_target.x <= MAX_TARGET_X)
        &&& (self.state is InRound ==> self.session.remaining_ms > 0)
        &&& (self.state is AwaitingRound ==> self.session.remaining_ms > 0)
    }

    /// A new controller, resting in the menu.
    pub fn new() -> (c: Controller)
        ensures
            c.state is Menu,
            c.session == spec_fresh_session(),
            c.round is None,
            c.rounds_generated == 0,
            c.wf(),
    {
        Controller {
            state: AppState::Menu,
            session: GameState {
                score: 0,
                remaining_ms: START_TIME_MS,
                timer_expired: false,
            },
            round: None,
            rounds_generated: 0,
        }
    }

    /// The one-shot starting phase: resets the session, clears any leftover
    /// round, and moves on to awaiting a round.
    pub fn run_starting(&mut self)
        ensures
            *final(self) == spec_starting(*old(self)),
            final(self).wf(),
    {
        self.state = AppState::AwaitingRound;
        self.session = GameState {
            score: 0,
            remaining_ms: START_TIME_MS,
            timer_expired: false,
        };
        self.round = None;
    }

    /// The one-shot awaiting phase: generates a round, spawns it, and moves
    /// into the active phase. On an invalid field it changes nothing and
    /// surfaces the configuration error to the host.
    pub fn run_awaiting(&mut self, field: &FieldGeometry) -> (r: Result<(), RoundError>)
        requires
            field.bounded(),
            old(self).session.remaining_ms > 0,
        ensures
            r is Ok <==> field.valid(),
            !field.valid() ==> *final(self) == *old(self) && r == Err::<(), RoundError>(
                RoundError::InvalidField,
            ),
            field.valid() ==> exists|fr: Round|
                #[trigger] generated_for(fr, *field) && *final(self) == spec_begin_round(
                    *old(self),
                    fr,
                ),
            field.valid() ==> final(self).wf(),
    {
        match generate_round(field) {
            Ok(rd) => {
                self.state = AppState::InRound;
                self.round = Some(rd);
                self.rounds_generated = if self.rounds_generated < u64::MAX {
                    self.rounds_generated + 1
                } else {
                    self.rounds_generated
                };
                proof {
                    assert(generated_for(rd, *field) && *self == spec_begin_round(
                        *old(self),
                        rd,
                    ));
                }
                Ok(())
            },
            Err(e) => Err(e),
        }
    }
}

/// Finds the first decisive input of a tick in a menu-like phase.
pub fn first_control(events: &Vec<InputEvent>) -> (a: Option<ControlAction>)
    ensures
        a == spec_first_control(events@),
{
    let n = events.len();
    let mut i: usize = 0;
    proof {
        assert(events@.skip(0) =~= events@);
    }
    while i < n
        invariant
            i <= n,
            n == events@.len(),
            spec_first_control(events@) == spec_first_control(events@.skip(i as int)),
        decreases n - i,
    {
        let ev = events[i];
        proof {
            assert(events@.skip(i as int)[0] == events@[i as int]);
            assert(events@.skip(i as int).drop_first() =~= events@.skip(i as int + 1));
        }
        match ev {
            InputEvent::Confirm => {
                return Some(ControlAction::Start);
            },
            InputEvent::Exit => {
                return Some(ControlAction::Quit);
            },
            InputEvent::Click { .. } => {},
        }
        i = i + 1;
    }
    proof {
        assert(events@.skip(n as int) =~= Seq::<InputEvent>::empty());
    }
    None
}

/// Judges a tick's clicks against the live round, in arrival order; the
/// first judged hit wins and ends checking for the tick.
pub fn process_clicks(events: &Vec<InputEvent>, r: &Round) -> (j: Judgement)
    requires
        r.wf(),
    ensures
        j == spec_first_judgement(events@, *r),
{
    let n = events.len();
    let mut i: usize = 0;
    proof {
        assert(events@.skip(0) =~= events@);
    }
    while i < n
        invariant
            i <= n,
            n == events@.len(),
            r.wf(),
            spec_first_judgement(events@, *r) == spec_first_judgement(
                events@.skip(i as int),
                *r,
            ),
        decreases n - i,
    {
        let ev = events[i];
        proof {
            assert(events@.skip(i as int)[0] == events@[i as int]);
            assert(events@.skip(i as int).drop_first() =~= events@.skip(i as int + 1));
        }
        match ev {
            InputEvent::Click { x, y } => {
                let j = judge_click(x, y, r);
                match j {
                    Judgement::NoHit => {},
                    _ => {
                        return j;
                    },
                }
            },
            _ => {},
        }
        i = i + 1;
    }
    proof {
        assert(events@.skip(n as int) =~= Seq::<InputEvent>::empty());
    }
    Judgement::NoHit
}

impl Controller {
    /// The active-phase part of one tick; returns whether a correct hit
    /// asks for a new round.
    fn step_in_round(
        &mut self,
        dt: u64,
        events: &Vec<InputEvent>,
        field: &FieldGeometry,
    ) -> (want_new: bool)
        requires
            old(self).wf(),
            old(self).state is InRound,
            dt <= MAX_TICK_MS,
            field.bounded(),
        ensures
            *final(self) == spec_in_round_step(*old(self), dt, events@, *field).0,
            want_new == spec_in_round_step(*old(self), dt, events@, *field).1,
            final(self).wf(),
            want_new ==> final(self).state is AwaitingRound,
    {
        let rem = self.session.remaining_ms;
        if dt >= rem {
            self.session.remaining_ms = 0;
            self.session.timer_expired = true;
            self.state = AppState::GameOver;
            self.round = None;
            return false;
        }
        self.session.remaining_ms = rem - dt;
        let mut rd = self.round.unwrap();
        advance_round(&mut rd, dt);
        if round_missed(&rd, field.width) {
            self.state = AppState::GameOver;
            self.round = None;
            return false;
        }
        self.round = Some(rd);
        match process_clicks(events, &rd) {
            Judgement::HitCorrect => {
                self.session.score = if self.session.score < u32::MAX {
                    self.session.score + 1
                } else {
                    self.session.score
                };
                self.state = AppState::AwaitingRound;
                self.round = None;
                true
            },
            Judgement::HitIncorrect => {
                self.state = AppState::GameOver;
                self.round = None;
                false
            },
            Judgement::NoHit => false,
        }
    }

    /// One whole tick: elapsed time, the tick's events in arrival order,
    /// and the field geometry read fresh by the host. Returns whether the
    /// host should terminate, or the configuration error when a spawn was
    /// needed and the field is invalid.
    pub fn tick(&mut self, dt: u64, events: &Vec<InputEvent>, field: &FieldGeometry) -> (r:
        Result<bool, RoundError>)
        requires
            old(self).wf(),
            dt <= MAX_TICK_MS,
            field.bounded(),
        ensures
            final(self).wf(),
            ({
                let gen = spec_tick_generates(*old(self), dt, events@, *field);
                &&& (!gen ==> {
                    let (c2, ex) = spec_tick(*old(self), dt, events@, *field, arbitrary());
                    *final(self) == c2 && r == Ok::<bool, RoundError>(ex)
                })
                &&& (gen && field.valid() ==> r == Ok::<bool, RoundError>(false) && exists|
                    fr: Round,
                |
                    #[trigger] generated_for(fr, *field) && *final(self) == spec_tick(
                        *old(self),
                        dt,
                        events@,
                        *field,
                        fr,
                    ).0)
                &&& (gen && !field.valid() ==> r == Err::<bool, RoundError>(
                    RoundError::InvalidField,
                ) && *final(self) == spec_tick_blocked(*old(self), dt, events@, *field))
            }),
    {
        match self.state {
            AppState::Menu | AppState::GameOver => {
                match first_control(events) {
                    Some(ControlAction::Start) => {
                        self.run_starting();
                        let ghost mid: Controller = *self;
                        match self.run_awaiting(field) {
                            Ok(()) => {
                                proof {
                                    let fr = choose|fr: Round|
                                        #[trigger] generated_for(fr, *field) && *self
                                            == spec_begin_round(mid, fr);
                                    assert(generated_for(fr, *field) && *self == spec_tick(
                                        *old(self),
                                        dt,
                                        events@,
                                        *field,
                                        fr,
                                    ).0);
                                }
                                Ok(false)
                            },
                            Err(e) => Err(e),
                        }
                    },
                    Some(ControlAction::Quit) => Ok(true),
                    None => Ok(false),
                }
            },
            AppState::Starting => {
                self.run_starting();
                let ghost mid: Controller = *self;
                match self.run_awaiting(field) {
                    Ok(()) => {
                        proof {
                            let fr = choose|fr: Round|
                                #[trigger] generated_for(fr, *field) && *self == spec_begin_round(
                                    mid,
                                    fr,
                                );
                            assert(generated_for(fr, *field) && *self == spec_tick(
                                *old(self),
                                dt,
                                events@,
                                *field,
                                fr,
                            ).0);
                        }
                        Ok(false)
                    },
                    Err(e) => Err(e),
                }
            },
            AppState::AwaitingRound => {
                let ghost mid: Controller = *self;
                match self.run_awaiting(field) {
                    Ok(()) => {
                        proof {
                            let fr = choose|fr: Round|
                                #[trigger] generated_for(fr, *field) && *self == spec_begin_round(
                                    mid,
                                    fr,
                                );
                            assert(generated_for(fr, *field) && *self == spec_tick(
                                *old(self),
                                dt,
                                events@,
                                *field,
                                fr,
                            ).0);
                        }
                        Ok(false)
                    },
                    Err(e) => Err(e),
                }
            },
            AppState::InRound => {
                let want_new = self.step_in_round(dt, events, field);
                if want_new {
                    let ghost mid: Controller = *self;
                    match self.run_awaiting(field) {
                        Ok(()) => {
                            proof {
                                let fr = choose|fr: Round|
                                    #[trigger] generated_for(fr, *field) && *self
                                        == spec_begin_round(mid, fr);
                                assert(generated_for(fr, *field) && *self == spec_tick(
                                    *old(self),
                                    dt,
                                    events@,
                                    *field,
                                    fr,
                                ).0);
                            }
                            Ok(false)
                        },
                        Err(e) => Err(e),
                    }
                } else {
                    Ok(false)
                }
            },
        }
    }
}

/// While a round stays live across a tick, each target's horizontal
/// position is non-decreasing.
pub proof fn lemma_in_round_motion_non_decreasing(
    c: Controller,
    dt: u64,
    events: Seq<InputEvent>,
    field: FieldGeometry,
)
    requires
        c.wf(),
        c.state is InRound,
        dt <= MAX_TICK_MS,
        field.bounded(),
        spec_in_round_step(c, dt, events, field).0.state is InRound,
    ensures
        ({
            let after = spec_in_round_step(c, dt, events, field).0;
            &&& after.round is Some
            &&& after.round->Some_0.correct_target.x >= c.round->Some_0.correct_target.x
            &&& after.round->Some_0.incorrect_target.x >= c.round->Some_0.incorrect_target.x
        }),
{
    crate::motion::lemma_motion_non_decreasing(c.round->Some_0.correct_target, dt as int);
    crate::motion::lemma_motion_non_decreasing(c.round->Some_0.incorrect_target, dt as int);
}

/// Round trip: from the starting one-shot through awaiting into a live
/// round, a tick whose clicks hit the correct target leaves the score up by
/// exactly one and asks for exactly one new round, which the following
/// spawn begins.
pub proof fn lemma_round_trip(
    c: Controller,
    fresh: Round,
    dt: u64,
    events: Seq<InputEvent>,
    field: FieldGeometry,
)
    requires
        field.bounded(),
        generated_for(fresh, field),
        dt < START_TIME_MS,
        spec_first_judgement(events, spec_moved_round(fresh, dt as int)) is HitCorrect,
        !spec_round_missed(spec_moved_round(fresh, dt as int), field.width as int),
    ensures
        ({
            let begun = spec_begin_round(spec_starting(c), fresh);
            let stepped = spec_in_round_step(begun, dt, events, field);
            &&& begun.state is InRound
            &&& stepped.1
            &&& stepped.0.state is AwaitingRound
            &&& stepped.0.session.score == begun.session.score + 1
            &&& stepped.0.session.score == 1
            &&& forall|next: Round|
                (#[trigger] spec_begin_round(stepped.0, next)).state is InRound
                    && spec_begin_round(stepped.0, next).session.score == 1
                    && spec_begin_round(stepped.0, next).round == Some(next)
        }),
{
}

/// The text a finished playthrough shows: a win exactly when the countdown
/// expired, a loss after a wrong click or a missed target.
pub open spec fn spec_outcome_text(timer_expired: bool) -> Seq<char> {
    if timer_expired {
        "Congratulations! You won!"@
    } else {
        "Sorry. You lost!"@
    }
}

/// Hands the game-over message out for a finished session.
pub fn outcome_text(s: &GameState) -> (t: &'static str)
    ensures
        t@ == spec_outcome_text(s.timer_expired),
{
    if s.timer_expired {
        "Congratulations! You won!"
    } else {
        "Sorry. You lost!"
    }
}

} // verus!
