use crate::auth::{next_wait, wait_for, AccessToken};
use crate::error::Error;
use vstd::prelude::*;

verus! {

/// The holder of the single current token. A token is only ever replaced as a
/// whole value, so a reader sees the fields of one acquisition together.
pub struct TokenCell {
    token: AccessToken,
}

impl TokenCell {
    pub closed spec fn view(&self) -> AccessToken {
        self.token
    }

    pub fn new(token: AccessToken) -> (r: TokenCell)
        ensures
            r.view() == token,
    {
        TokenCell { token }
    }

    /// A copy of the token held now.
    pub fn current(&self) -> (r: AccessToken)
        ensures
            r == self.view(),
    {
        self.token.snapshot()
    }

    /// Puts `token` in place of the one held.
    pub fn replace(&mut self, token: AccessToken)
        ensures
            final(self).view() == token,
    {
        self.token = token;
    }
}

/// Where the background refresher stands.
#[derive(Clone, Copy)]
pub enum Phase {
    /// Sleeping for `wait_secs` seconds, or until shutdown is requested.
    Waiting { wait_secs: u64 },
    /// An acquisition is in flight.
    Refreshing,
    /// An acquisition failed; nothing more happens.
    Failed,
    /// Shutdown was honoured; nothing more happens.
    Terminated,
}

/// What the refresher learns from the world.
pub enum Event {
    /// The wait ran out with no shutdown request.
    WaitElapsed,
    /// Shutdown was requested.
    ShutdownRequested,
    /// The acquisition in flight returned a token.
    Acquired(AccessToken),
    /// The acquisition in flight failed.
    AcquireFailed(Error),
}

/// How the refresher ended.
pub enum Outcome {
    /// Shutdown was requested and honoured.
    Terminated,
    /// A refresh failed with this error.
    Failed(Error),
}

/// What the refresher asks its runner to do next.
pub enum Action {
    /// Start one token acquisition.
    Acquire,
    /// Store `token` in the cell, then wait `wait_secs` seconds.
    Install { token: AccessToken, wait_secs: u64 },
    /// Stop for good and report the outcome.
    Finish(Outcome),
    /// Nothing: the event does not apply to the current phase.
    Idle,
}

/// The refresher's transition on one event: the next phase and the action.
/// Shutdown is only observed while waiting; elsewhere an event that does not
/// belong to the phase changes nothing.
pub open spec fn transition(p: Phase, ev: Event) -> (Phase, Action) {
    match (p, ev) {
        (Phase::Waiting { .. }, Event::WaitElapsed) => (Phase::Refreshing, Action::Acquire),
        (Phase::Waiting { .. }, Event::ShutdownRequested) => (
            Phase::Terminated,
            Action::Finish(Outcome::Terminated),
        ),
        (Phase::Refreshing, Event::Acquired(t)) => (
            Phase::Waiting { wait_secs: wait_for(t.expires_in) },
            Action::Install { token: t, wait_secs: wait_for(t.expires_in) },
        ),
        (Phase::Refreshing, Event::AcquireFailed(e)) => (
            Phase::Failed,
            Action::Finish(Outcome::Failed(e)),
        ),
        (p, _) => (p, Action::Idle),
    }
}

/// The background refresher that keeps a token cell valid.
pub struct Scheduler {
    phase: Phase,
}

impl Scheduler {
    pub closed spec fn view(&self) -> Phase {
        self.phase
    }

    /// The refresher after the cell was seeded with `initial`: waiting until
    /// just before that token expires.
    pub fn start(initial: &AccessToken) -> (r: Scheduler)
        ensures
            r.view() == (Phase::Waiting { wait_secs: wait_for(initial.expires_in) }),
    {
        Scheduler { phase: Phase::Waiting { wait_secs: next_wait(initial.expires_in) } }
    }

    /// Seconds to wait, while waiting.
    pub fn wait_secs(&self) -> (r: Option<u64>)
        ensures
            r == (match self.view() {
                Phase::Waiting { wait_secs } => Some(wait_secs),
                _ => None,
            }),
    {
        match &self.phase {
            Phase::Waiting { wait_secs } => Some(*wait_secs),
            _ => None,
        }
    }

    /// Whether the refresher has ended, by shutdown or by failure.
    pub fn is_finished(&self) -> (r: bool)
        ensures
            r == (self.view() is Failed || self.view() is Terminated),
    {
        match &self.phase {
            Phase::Failed | Phase::Terminated => true,
            _ => false,
        }
    }

    /// Takes one event and returns the action it calls for.
    pub fn step(&mut self, ev: Event) -> (r: Action)
        ensures
            (final(self).view(), r) == transition(old(self).view(), ev),
    {
        let phase = self.phase;
        match phase {
            Phase::Waiting { wait_secs } => {
                match ev {
                    Event::WaitElapsed => {
                        self.phase = Phase::Refreshing;
                        Action::Acquire
                    },
                    Event::ShutdownRequested => {
                        self.phase = Phase::Terminated;
                        Action::Finish(Outcome::Terminated)
                    },
                    _ => {
                        self.phase = Phase::Waiting { wait_secs };
                        Action::Idle
                    },
                }
            },
            Phase::Refreshing => {
                match ev {
                    Event::Acquired(t) => {
                        let w = next_wait(t.expires_in);
                        self.phase = Phase::Waiting { wait_secs: w };
                        Action::Install { token: t, wait_secs: w }
                    },
                    Event::AcquireFailed(e) => {
                        self.phase = Phase::Failed;
                        Action::Finish(Outcome::Failed(e))
                    },
                    _ => {
                        self.phase = Phase::Refreshing;
                        Action::Idle
                    },
                }
            },
            Phase::Failed => {
                self.phase = Phase::Failed;
                Action::Idle
            },
            Phase::Terminated => Action::Idle,
        }
    }
}

/// Seeds the cell with the result of the initial acquisition and starts the
/// refresher. A failed initial acquisition is handed back and nothing is
/// started.
pub fn launch(initial: Result<AccessToken, Error>) -> (r: Result<(TokenCell, Scheduler), Error>)
    ensures
        match initial {
            Ok(t) => r matches Ok((cell, sched)) && cell.view() == t && sched.view() == (
            Phase::Waiting { wait_secs: wait_for(t.expires_in) }),
            Err(e) => r == Err::<(TokenCell, Scheduler), Error>(e),
        },
{
    match initial {
        Ok(t) => {
            let sched = Scheduler::start(&t);
            Ok((TokenCell::new(t), sched))
        },
        Err(e) => Err(e),
    }
}

/// The cell's token after an action: only `Install` changes it.
pub open spec fn apply(cell: AccessToken, a: Action) -> AccessToken {
    match a {
        Action::Install { token, .. } => token,
        _ => cell,
    }
}

/// Runs the refresher from phase `p`, with `cell` in the cell, through the
/// events `evs`: the last phase, the last token in the cell, and the actions.
pub open spec fn drive(p: Phase, cell: AccessToken, evs: Seq<Event>) -> (Phase, AccessToken, Seq<
    Action,
>)
    decreases evs.len(),
{
    if evs.len() == 0 {
        (p, cell, Seq::empty())
    } else {
        let (p1, a) = transition(p, evs[0]);
        let rest = drive(p1, apply(cell, a), evs.drop_first());
        (rest.0, rest.1, seq![a] + rest.2)
    }
}

/// How many of `acts` satisfy `f`.
pub open spec fn count(acts: Seq<Action>, f: spec_fn(Action) -> bool) -> nat
    decreases acts.len(),
{
    if acts.len() == 0 {
        0
    } else {
        (if f(acts[0]) {
            1nat
        } else {
            0nat
        }) + count(acts.drop_first(), f)
    }
}

pub open spec fn is_finish(a: Action) -> bool {
    a is Finish
}

pub open spec fn is_acquire(a: Action) -> bool {
    a is Acquire
}

proof fn lemma_drive_first(p: Phase, cell: AccessToken, ev: Event, evs: Seq<Event>)
    ensures
        ({
            let (p1, a) = transition(p, ev);
            let rest = drive(p1, apply(cell, a), evs);
            drive(p, cell, seq![ev] + evs) == (rest.0, rest.1, seq![a] + rest.2)
        }),
{
    let all = seq![ev] + evs;
    assert(all[0] == ev);
    assert(all.drop_first() =~= evs);
}

proof fn lemma_count_first(a: Action, acts: Seq<Action>, f: spec_fn(Action) -> bool)
    ensures
        count(seq![a] + acts, f) == (if f(a) {
            1nat
        } else {
            0nat
        }) + count(acts, f),
{
    let all = seq![a] + acts;
    assert(all[0] == a);
    assert(all.drop_first() =~= acts);
}

/// Once finished, the refresher stays where it is, leaves the cell alone and
/// asks for nothing more.
proof fn lemma_finished_is_inert(p: Phase, cell: AccessToken, evs: Seq<Event>)
    requires
        p is Failed || p is Terminated,
    ensures
        drive(p, cell, evs).0 == p,
        drive(p, cell, evs).1 == cell,
        drive(p, cell, evs).2.len() == evs.len(),
        forall|i: int| 0 <= i < evs.len() ==> #[trigger] drive(p, cell, evs).2[i] is Idle,
        count(drive(p, cell, evs).2, |a: Action| is_finish(a)) == 0,
        count(drive(p, cell, evs).2, |a: Action| is_acquire(a)) == 0,
    decreases evs.len(),
{
    if evs.len() > 0 {
        let rest = evs.drop_first();
        lemma_finished_is_inert(p, cell, rest);
        assert(evs =~= seq![evs[0]] + rest);
        lemma_drive_first(p, cell, evs[0], rest);
        lemma_count_first(Action::Idle, drive(p, cell, rest).2, |a: Action| is_finish(a));
        lemma_count_first(Action::Idle, drive(p, cell, rest).2, |a: Action| is_acquire(a));
        assert forall|i: int| 0 <= i < evs.len() implies #[trigger] drive(p, cell, evs).2[i] is Idle by {
            if i > 0 {
                assert(drive(p, cell, evs).2[i] == drive(p, cell, rest).2[i - 1]);
            }
        }
    }
}

/// After an acquisition that returned a token living `E` seconds, the
/// refresher installs that token and waits `max(E - 10, 0)` seconds.
pub proof fn refresh_waits_lifetime_less_margin(t: AccessToken)
    ensures
        ({
            let (p, a) = transition(Phase::Refreshing, Event::Acquired(t));
            let w: int = if t.expires_in as int - 10 > 0 {
                t.expires_in as int - 10
            } else {
                0
            };
            &&& a matches Action::Install { token, wait_secs } && token == t && wait_secs as int == w
            &&& p matches Phase::Waiting { wait_secs } && wait_secs as int == w
        }),
{
}

/// A refresh that fails ends the refresher: whatever events follow, exactly
/// one outcome is reported, it carries the error, and the cell keeps the token
/// it held before the attempt.
pub proof fn refresh_failure_reported_once(cell: AccessToken, e: Error, evs: Seq<Event>)
    ensures
        ({
            let (p, last, acts) = drive(Phase::Refreshing, cell, seq![Event::AcquireFailed(e)] + evs);
            &&& p is Failed
            &&& last == cell
            &&& acts[0] == Action::Finish(Outcome::Failed(e))
            &&& count(acts, |a: Action| is_finish(a)) == 1
        }),
{
    let a = Action::Finish(Outcome::Failed(e));
    lemma_drive_first(Phase::Refreshing, cell, Event::AcquireFailed(e), evs);
    lemma_finished_is_inert(Phase::Failed, cell, evs);
    lemma_count_first(a, drive(Phase::Failed, cell, evs).2, |a: Action| is_finish(a));
}

/// Shutdown requested while waiting ends the refresher cleanly: whatever
/// events follow, no acquisition is asked for and the cell is left alone.
pub proof fn shutdown_while_waiting_terminates(
    wait_secs: u64,
    cell: AccessToken,
    evs: Seq<Event>,
)
    ensures
        ({
            let (p, last, acts) = drive(
                Phase::Waiting { wait_secs },
                cell,
                seq![Event::ShutdownRequested] + evs,
            );
            &&& p is Terminated
            &&& last == cell
            &&& acts[0] == Action::Finish(Outcome::Terminated)
            &&& count(acts, |a: Action| is_acquire(a)) == 0
            &&& count(acts, |a: Action| is_finish(a)) == 1
        }),
{
    let a = Action::Finish(Outcome::Terminated);
    lemma_drive_first(Phase::Waiting { wait_secs }, cell, Event::ShutdownRequested, evs);
    lemma_finished_is_inert(Phase::Terminated, cell, evs);
    lemma_count_first(a, drive(Phase::Terminated, cell, evs).2, |a: Action| is_acquire(a));
    lemma_count_first(a, drive(Phase::Terminated, cell, evs).2, |a: Action| is_finish(a));
}

} // verus!
