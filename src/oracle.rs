//! The freshness oracle: the decisions of the background task that keeps the
//! chain's current validity anchor and height. The task itself performs the
//! queries and the sleeps; each of its steps hands the outcome of the last
//! action to `OracleState::step`, which says what to do next and what to
//! publish.
use vstd::prelude::*;

verus! {

/// Pause between two polling cycles, in milliseconds.
pub const CYCLE_PAUSE_MS: u64 = 300;

/// Pause between two anchor queries of one refresh attempt, in milliseconds.
pub const RETRY_PAUSE_MS: u64 = 200;

/// Wall-clock budget of one refresh attempt, in milliseconds.
pub const REFRESH_BUDGET_MS: u64 = 5_000;

/// Milliseconds without a new anchor that the oracle tolerates.
pub const STALE_LIMIT_MS: u64 = 120_000;

/// Where the oracle's loop stands.
#[derive(Clone, Copy, PartialEq, Eq, Structural, Debug)]
pub enum Phase {
    /// Waiting for the height query of the next cycle.
    Polling,
    /// Looking for an anchor that differs from the published one, since
    /// `started_ms`.
    Refreshing { started_ms: u64 },
    /// Terminal: the anchor went stale for too long.
    Stopped,
}

/// What the last action produced.
#[derive(Clone, Copy, Debug)]
pub enum Event {
    /// The height query answered (`None`: it failed).
    Height(Option<u64>),
    /// The anchor query answered (`None`: it failed).
    AnchorReply(Option<[u8; 32]>),
    /// A pause ended.
    Woke,
}

/// What the task does next.
#[derive(Clone, Copy, PartialEq, Eq, Structural, Debug)]
pub enum Action {
    QueryHeight,
    QueryAnchor,
    /// Suspend for this many milliseconds, then report `Event::Woke`.
    Sleep(u64),
    /// Leave the loop for good.
    Halt,
}

/// The result of one step: the next action, and what to write into the shared
/// state before taking it.
#[derive(Clone, Copy, Debug)]
pub struct Outcome {
    pub action: Action,
    pub store_height: Option<u64>,
    pub publish: Option<[u8; 32]>,
}

/// The oracle's own view: the published anchor and height, when the anchor
/// was last replaced, and the phase of the loop. Times are milliseconds of a
/// monotonic clock.
#[derive(Clone, Copy, Debug)]
pub struct OracleState {
    pub anchor: [u8; 32],
    pub height: u64,
    pub last_updated_ms: u64,
    pub phase: Phase,
}

/// Milliseconds from `since` to `now`; none when the clock reads earlier.
pub open spec fn elapsed(now: u64, since: u64) -> nat {
    if now >= since {
        (now - since) as nat
    } else {
        0
    }
}

/// The refresh attempt that began at `started` may still query at `now`.
pub open spec fn within_budget(now: u64, started: u64) -> bool {
    elapsed(now, started) < REFRESH_BUDGET_MS
}

/// At `now`, after a failed query, the anchor has been stale for too long.
pub open spec fn is_stale(now: u64, last_updated: u64) -> bool {
    elapsed(now, last_updated) > STALE_LIMIT_MS as nat
}

pub open spec fn outcome(action: Action, store_height: Option<u64>, publish: Option<[u8; 32]>) -> Outcome {
    Outcome { action, store_height, publish }
}

/// A pause in the refreshing phase ended (or a reply came that the phase does
/// not expect): query again within budget, else give the attempt up.
pub open spec fn refresh_deadline_spec(s: OracleState, started: u64, now: u64) -> (OracleState, Outcome) {
    if within_budget(now, started) {
        (s, outcome(Action::QueryAnchor, None, None))
    } else if is_stale(now, s.last_updated_ms) {
        (OracleState { phase: Phase::Stopped, ..s }, outcome(Action::Halt, None, None))
    } else {
        (OracleState { phase: Phase::Polling, ..s }, outcome(Action::Sleep(CYCLE_PAUSE_MS), None, None))
    }
}

/// One step of the oracle's loop: from its state, the last event and the
/// clock, the next state and what to do.
pub open spec fn step_spec(s: OracleState, e: Event, now: u64) -> (OracleState, Outcome) {
    match s.phase {
        Phase::Stopped => (s, outcome(Action::Halt, None, None)),
        Phase::Polling => match e {
            Event::Height(Some(h)) => (
                OracleState { height: h, phase: Phase::Refreshing { started_ms: now }, ..s },
                outcome(Action::QueryAnchor, Some(h), None),
            ),
            Event::Height(None) => if is_stale(now, s.last_updated_ms) {
                (OracleState { phase: Phase::Stopped, ..s }, outcome(Action::Halt, None, None))
            } else {
                (s, outcome(Action::QueryHeight, None, None))
            },
            _ => (s, outcome(Action::QueryHeight, None, None)),
        },
        Phase::Refreshing { started_ms } => match e {
            Event::AnchorReply(Some(a)) => if a@ != s.anchor@ {
                (
                    OracleState { anchor: a, last_updated_ms: now, phase: Phase::Polling, ..s },
                    outcome(Action::Sleep(CYCLE_PAUSE_MS), None, Some(a)),
                )
            } else {
                (s, outcome(Action::Sleep(RETRY_PAUSE_MS), None, None))
            },
            Event::AnchorReply(None) => (s, outcome(Action::Sleep(RETRY_PAUSE_MS), None, None)),
            _ => refresh_deadline_spec(s, started_ms, now),
        },
    }
}

/// The state after a run of events, each with the clock reading at which it
/// came.
pub open spec fn run(s: OracleState, events: Seq<(Event, u64)>) -> OracleState
    decreases events.len(),
{
    if events.len() == 0 {
        s
    } else {
        run(step_spec(s, events[0].0, events[0].1).0, events.drop_first())
    }
}

/// Whether two anchors hold the same bytes.
pub fn same_anchor(a: &[u8; 32], b: &[u8; 32]) -> (r: bool)
    ensures
        r == (a@ == b@),
{
    let mut i: usize = 0;
    while i < 32
        invariant
            0 <= i <= 32,
            a@.len() == 32,
            b@.len() == 32,
            forall|j: int| 0 <= j < i ==> a@[j] == b@[j],
        decreases 32 - i,
    {
        if a[i] != b[i] {
            return false;
        }
        i = i + 1;
    }
    assert(a@ =~= b@);
    true
}

fn elapsed_ms(now: u64, since: u64) -> (r: u64)
    ensures
        r == elapsed(now, since),
{
    if now >= since {
        now - since
    } else {
        0
    }
}

impl OracleState {
    /// The state at startup: `anchor` and `height` as first read, refreshed
    /// at `now_ms`, about to poll.
    pub fn new(anchor: [u8; 32], height: u64, now_ms: u64) -> (s: OracleState)
        ensures
            s == (OracleState { anchor, height, last_updated_ms: now_ms, phase: Phase::Polling }),
    {
        OracleState { anchor, height, last_updated_ms: now_ms, phase: Phase::Polling }
    }

    /// Whether the loop has ended for good.
    pub fn is_stopped(&self) -> (r: bool)
        ensures
            r == (self.phase == Phase::Stopped),
    {
        match self.phase {
            Phase::Stopped => true,
            _ => false,
        }
    }

    fn refresh_deadline(&mut self, started: u64, now_ms: u64) -> (o: Outcome)
        ensures
            (*final(self), o) == refresh_deadline_spec(*old(self), started, now_ms),
    {
        if elapsed_ms(now_ms, started) < REFRESH_BUDGET_MS {
            Outcome { action: Action::QueryAnchor, store_height: None, publish: None }
        } else if elapsed_ms(now_ms, self.last_updated_ms) > STALE_LIMIT_MS {
            self.phase = Phase::Stopped;
            Outcome { action: Action::Halt, store_height: None, publish: None }
        } else {
            self.phase = Phase::Polling;
            Outcome { action: Action::Sleep(CYCLE_PAUSE_MS), store_height: None, publish: None }
        }
    }

    /// Takes the event that the last action produced at clock reading
    /// `now_ms`, moves to the next state and says what to do next.
    ///
    /// A height is stored whenever the query succeeds; a failed height query
    /// is retried at once, unless the anchor has been stale for more than the
    /// limit, which stops the oracle. A refresh attempt queries the anchor, pausing
    /// between queries, until a reply differs from the published anchor
    /// (published at once) or its budget is spent; a spent budget stops the
    /// oracle when the anchor has been stale for more than the limit.
    pub fn step(&mut self, e: Event, now_ms: u64) -> (o: Outcome)
        ensures
            (*final(self), o) == step_spec(*old(self), e, now_ms),
    {
        match self.phase {
            Phase::Stopped => Outcome { action: Action::Halt, store_height: None, publish: None },
            Phase::Polling => match e {
                Event::Height(Some(h)) => {
                    self.height = h;
                    self.phase = Phase::Refreshing { started_ms: now_ms };
                    Outcome { action: Action::QueryAnchor, store_height: Some(h), publish: None }
                },
                Event::Height(None) => {
                    if elapsed_ms(now_ms, self.last_updated_ms) > STALE_LIMIT_MS {
                        self.phase = Phase::Stopped;
                        Outcome { action: Action::Halt, store_height: None, publish: None }
                    } else {
                        Outcome { action: Action::QueryHeight, store_height: None, publish: None }
                    }
                },
                _ => Outcome { action: Action::QueryHeight, store_height: None, publish: None },
            },
            Phase::Refreshing { started_ms } => match e {
                Event::AnchorReply(Some(a)) => {
                    if !same_anchor(&a, &self.anchor) {
                        self.anchor = a;
                        self.last_updated_ms = now_ms;
                        self.phase = Phase::Polling;
                        Outcome {
                            action: Action::Sleep(CYCLE_PAUSE_MS),
                            store_height: None,
                            publish: Some(a),
                        }
                    } else {
                        Outcome { action: Action::Sleep(RETRY_PAUSE_MS), store_height: None, publish: None }
                    }
                },
                Event::AnchorReply(None) => Outcome {
                    action: Action::Sleep(RETRY_PAUSE_MS),
                    store_height: None,
                    publish: None,
                },
                _ => self.refresh_deadline(started_ms, now_ms),
            },
        }
    }
}

/// No reply carries an anchor that differs from `anchor`.
pub open spec fn replies_only(events: Seq<(Event, u64)>, anchor: [u8; 32]) -> bool {
    forall|i: int|
        0 <= i < events.len() ==> match #[trigger] events[i].0 {
            Event::AnchorReply(Some(a)) => a@ == anchor@,
            _ => true,
        }
}

/// The oracle never publishes an anchor equal to the one it replaces, and
/// its anchor changes only by a publication.
pub proof fn lemma_publish_differs(s: OracleState, e: Event, now: u64)
    ensures
        match step_spec(s, e, now).1.publish {
            Some(a) => a@ != s.anchor@ && step_spec(s, e, now).0.anchor == a,
            None => step_spec(s, e, now).0.anchor == s.anchor,
        },
{
}

/// When every anchor query answers with the published anchor (or fails), no
/// run of the oracle changes its anchor; a refresh attempt keeps querying
/// every retry pause while its budget lasts, and once the budget is spent it
/// ends without an update.
pub proof fn lemma_same_anchor_no_update(s: OracleState, events: Seq<(Event, u64)>, now: u64)
    requires
        replies_only(events, s.anchor),
    ensures
        run(s, events).anchor == s.anchor,
        s.phase is Refreshing ==> step_spec(s, Event::AnchorReply(Some(s.anchor)), now) == (
            s,
            outcome(Action::Sleep(RETRY_PAUSE_MS), None, None),
        ),
        s.phase is Refreshing && within_budget(now, s.phase->started_ms) ==> step_spec(s, Event::Woke, now)
            == (s, outcome(Action::QueryAnchor, None, None)),
        s.phase is Refreshing && !within_budget(now, s.phase->started_ms) ==> ({
            let (t, o) = step_spec(s, Event::Woke, now);
            &&& t.anchor == s.anchor
            &&& !(t.phase is Refreshing)
            &&& o.publish is None
        }),
    decreases events.len(),
{
    if events.len() > 0 {
        let t = step_spec(s, events[0].0, events[0].1).0;
        lemma_publish_differs(s, events[0].0, events[0].1);
        assert(replies_only(events.drop_first(), s.anchor)) by {
            assert forall|i: int| 0 <= i < events.drop_first().len() implies match #[trigger] events.drop_first()[i].0 {
                Event::AnchorReply(Some(a)) => a@ == s.anchor@,
                _ => true,
            } by {
                assert(events.drop_first()[i] == events[i + 1]);
            }
        }
        assert(match events[0].0 {
            Event::AnchorReply(Some(a)) => a@ == s.anchor@,
            _ => true,
        });
        lemma_same_anchor_no_update(t, events.drop_first(), now);
    }
}

/// A failed query more than the staleness limit after the last update stops
/// the oracle: a failed height query at once, a failed refresh attempt once
/// its budget is spent. Within the limit a failed height query is retried at
/// once. A stopped oracle stays stopped whatever happens, and only halts.
pub proof fn lemma_stale_oracle_stops(s: OracleState, e: Event, now: u64)
    ensures
        s.phase is Refreshing && !within_budget(now, s.phase->started_ms) && is_stale(now, s.last_updated_ms)
            ==> step_spec(s, Event::Woke, now) == (
            OracleState { phase: Phase::Stopped, ..s },
            outcome(Action::Halt, None, None),
        ),
        s.phase is Refreshing && !within_budget(now, s.phase->started_ms) && !is_stale(now, s.last_updated_ms)
            ==> step_spec(s, Event::Woke, now).0.phase == Phase::Polling,
        s.phase == Phase::Polling && is_stale(now, s.last_updated_ms) ==> step_spec(s, Event::Height(None), now) == (
            OracleState { phase: Phase::Stopped, ..s },
            outcome(Action::Halt, None, None),
        ),
        s.phase == Phase::Polling && !is_stale(now, s.last_updated_ms) ==> step_spec(s, Event::Height(None), now)
            == (s, outcome(Action::QueryHeight, None, None)),
        s.phase == Phase::Stopped ==> step_spec(s, e, now) == (s, outcome(Action::Halt, None, None)),
{
}

} // verus!
