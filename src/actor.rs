use vstd::prelude::*;

verus! {

/// Connection attempts made in a row before a poller gives up.
pub const MAX_CONNECT_ATTEMPTS: u32 = 4;

/// Seconds to wait before another connection attempt.
pub const RETRY_DELAY_SECS: u64 = 5;

/// Seconds between two reads of a sensor.
pub const POLL_TICK_SECS: u64 = 1;

/// Where a poller stands; each state but `Terminated` awaits the outcome of
/// one piece of outside work.
#[derive(Clone, Debug, PartialEq, Eq)]
pub enum ActorState {
    /// Created, not yet started.
    Idle,
    /// Awaiting a connection; `failures` attempts in a row have failed.
    Connecting { failures: u32 },
    /// Connected, awaiting sensor resolution.
    Resolving,
    /// Awaiting a read of the sensor with this identifier.
    Reading { sensor_id: String },
    /// Stopped for good.
    Terminated,
}

/// The outcome of the work last asked for.
#[derive(Clone, Debug, PartialEq, Eq)]
pub enum ActorEvent {
    /// The poller has been spawned.
    Start,
    /// Whether the connection manager handed out a connection.
    Acquired(bool),
    /// The identifier of the resolved sensor, or `None` if resolution failed.
    Resolved(Option<String>),
    /// The sensor reported a reading (bit pattern of an `f32`).
    ValueRead(u32),
    /// The sensor identifier is no longer known to the provider.
    ValueAbsent,
    /// The read failed at the transport level.
    ReadFailed,
}

/// The next piece of outside work.
#[derive(Clone, Debug, PartialEq, Eq)]
pub enum ActorAction {
    /// Wait `delay_secs` seconds, then acquire a connection.
    Acquire { delay_secs: u64 },
    /// Resolve the sensor on the current connection.
    Resolve,
    /// Wait `delay_secs` seconds, then read the sensor, forcing a refresh.
    Read { sensor_id: String, delay_secs: u64 },
    /// Stop polling.
    Stop,
}

/// What a poller does on an event: a reading to publish, if any, and the
/// next action.
#[derive(Clone, Debug, PartialEq, Eq)]
pub struct ActorStep {
    pub publish: Option<u32>,
    pub action: ActorAction,
}

/// Whether `state` awaits an event such as `event`.
pub open spec fn accepts_spec(state: ActorState, event: ActorEvent) -> bool {
    match state {
        ActorState::Idle => event is Start,
        ActorState::Connecting { .. } => event is Acquired,
        ActorState::Resolving => event is Resolved,
        ActorState::Reading { .. } => event is ValueRead || event is ValueAbsent || event is ReadFailed,
        ActorState::Terminated => false,
    }
}

pub open spec fn step_of(publish: Option<u32>, action: ActorAction) -> ActorStep {
    ActorStep { publish, action }
}

/// The poller's transition: the next state and the step taken.
pub open spec fn transition(state: ActorState, event: ActorEvent) -> (ActorState, ActorStep) {
    match state {
        ActorState::Idle => (
            ActorState::Connecting { failures: 0 },
            step_of(None, ActorAction::Acquire { delay_secs: 0 }),
        ),
        ActorState::Connecting { failures } => match event {
            ActorEvent::Acquired(true) => (ActorState::Resolving, step_of(None, ActorAction::Resolve)),
            _ => if failures + 1 >= MAX_CONNECT_ATTEMPTS {
                (ActorState::Terminated, step_of(None, ActorAction::Stop))
            } else {
                (
                    ActorState::Connecting { failures: (failures + 1) as u32 },
                    step_of(None, ActorAction::Acquire { delay_secs: RETRY_DELAY_SECS }),
                )
            },
        },
        ActorState::Resolving => match event {
            ActorEvent::Resolved(Some(id)) => (
                ActorState::Reading { sensor_id: id },
                step_of(None, ActorAction::Read { sensor_id: id, delay_secs: 0 }),
            ),
            _ => (ActorState::Terminated, step_of(None, ActorAction::Stop)),
        },
        ActorState::Reading { sensor_id } => match event {
            ActorEvent::ValueRead(v) => (
                ActorState::Reading { sensor_id },
                step_of(Some(v), ActorAction::Read { sensor_id, delay_secs: POLL_TICK_SECS }),
            ),
            ActorEvent::ValueAbsent => (ActorState::Resolving, step_of(None, ActorAction::Resolve)),
            _ => (
                ActorState::Connecting { failures: 0 },
                step_of(None, ActorAction::Acquire { delay_secs: 0 }),
            ),
        },
        ActorState::Terminated => (ActorState::Terminated, step_of(None, ActorAction::Stop)),
    }
}

/// The state reached and the steps taken on a sequence of events.
pub open spec fn run(state: ActorState, events: Seq<ActorEvent>) -> (ActorState, Seq<ActorStep>)
    decreases events.len(),
{
    if events.len() == 0 {
        (state, Seq::empty())
    } else {
        let (next, step) = transition(state, events[0]);
        let (last, steps) = run(next, events.drop_first());
        (last, seq![step] + steps)
    }
}

/// Whether each event of `events` is awaited when it arrives.
pub open spec fn accepts_all(state: ActorState, events: Seq<ActorEvent>) -> bool
    decreases events.len(),
{
    if events.len() == 0 {
        true
    } else {
        accepts_spec(state, events[0]) && accepts_all(transition(state, events[0]).0, events.drop_first())
    }
}

/// The background poller of one metric, as a state machine: the caller
/// performs each action it asks for and hands back the outcome as the next
/// event.
pub struct PollingActor {
    state: ActorState,
}

impl PollingActor {
    pub closed spec fn state_spec(&self) -> ActorState {
        self.state
    }

    /// Connection failures in a row stay under the attempt bound.
    pub open spec fn wf(&self) -> bool {
        match self.state_spec() {
            ActorState::Connecting { failures } => failures < MAX_CONNECT_ATTEMPTS,
            _ => true,
        }
    }

    /// A poller that has not started yet.
    pub fn new() -> (r: PollingActor)
        ensures
            r.state_spec() is Idle,
            r.wf(),
    {
        PollingActor { state: ActorState::Idle }
    }

    /// The current state.
    pub fn state(&self) -> (r: &ActorState)
        ensures
            *r == self.state_spec(),
    {
        &self.state
    }

    /// Whether the poller has stopped for good.
    pub fn is_terminated(&self) -> (r: bool)
        ensures
            r == self.state_spec() is Terminated,
    {
        match self.state {
            ActorState::Terminated => true,
            _ => false,
        }
    }

    /// Whether the poller awaits an event such as `event`.
    pub fn accepts(&self, event: &ActorEvent) -> (r: bool)
        ensures
            r == accepts_spec(self.state_spec(), *event),
    {
        match (&self.state, event) {
            (ActorState::Idle, ActorEvent::Start) => true,
            (ActorState::Connecting { .. }, ActorEvent::Acquired(_)) => true,
            (ActorState::Resolving, ActorEvent::Resolved(_)) => true,
            (ActorState::Reading { .. }, ActorEvent::ValueRead(_)) => true,
            (ActorState::Reading { .. }, ActorEvent::ValueAbsent) => true,
            (ActorState::Reading { .. }, ActorEvent::ReadFailed) => true,
            _ => false,
        }
    }

    /// Takes the outcome of the last action and says what to do next.
    ///
    /// A failed connection is retried after `RETRY_DELAY_SECS`, up to
    /// `MAX_CONNECT_ATTEMPTS` attempts in a row; a failed resolution is fatal;
    /// a reading is published and the sensor read again after one tick; a
    /// vanished sensor is resolved once more on the same connection; a
    /// transport fault goes back to connecting with a fresh retry budget.
    pub fn on_event(&mut self, event: ActorEvent) -> (r: ActorStep)
        requires
            old(self).wf(),
            accepts_spec(old(self).state_spec(), event),
        ensures
            final(self).wf(),
            (final(self).state_spec(), r) == transition(old(self).state_spec(), event),
            r.publish == publish_of(event),
    {
        let (next, step) = match (&self.state, event) {
            (ActorState::Idle, _) => (
                ActorState::Connecting { failures: 0 },
                ActorStep { publish: None, action: ActorAction::Acquire { delay_secs: 0 } },
            ),
            (ActorState::Connecting { .. }, ActorEvent::Acquired(true)) => (
                ActorState::Resolving,
                ActorStep { publish: None, action: ActorAction::Resolve },
            ),
            (ActorState::Connecting { failures }, _) => {
                let failures = *failures + 1;
                if failures >= MAX_CONNECT_ATTEMPTS {
                    (ActorState::Terminated, ActorStep { publish: None, action: ActorAction::Stop })
                } else {
                    (
                        ActorState::Connecting { failures },
                        ActorStep {
                            publish: None,
                            action: ActorAction::Acquire { delay_secs: RETRY_DELAY_SECS },
                        },
                    )
                }
            },
            (ActorState::Resolving, ActorEvent::Resolved(Some(id))) => {
                let read = id.clone();
                (
                    ActorState::Reading { sensor_id: id },
                    ActorStep {
                        publish: None,
                        action: ActorAction::Read { sensor_id: read, delay_secs: 0 },
                    },
                )
            },
            (ActorState::Resolving, _) => (
                ActorState::Terminated,
                ActorStep { publish: None, action: ActorAction::Stop },
            ),
            (ActorState::Reading { sensor_id }, ActorEvent::ValueRead(v)) => (
                ActorState::Reading { sensor_id: sensor_id.clone() },
                ActorStep {
                    publish: Some(v),
                    action: ActorAction::Read {
                        sensor_id: sensor_id.clone(),
                        delay_secs: POLL_TICK_SECS,
                    },
                },
            ),
            (ActorState::Reading { .. }, ActorEvent::ValueAbsent) => (
                ActorState::Resolving,
                ActorStep { publish: None, action: ActorAction::Resolve },
            ),
            (ActorState::Reading { .. }, _) => (
                ActorState::Connecting { failures: 0 },
                ActorStep { publish: None, action: ActorAction::Acquire { delay_secs: 0 } },
            ),
            (ActorState::Terminated, _) => (
                ActorState::Terminated,
                ActorStep { publish: None, action: ActorAction::Stop },
            ),
        };
        self.state = next;
        step
    }
}

/// `n` failed connection attempts in a row.
pub open spec fn failed_attempts(n: nat) -> Seq<ActorEvent> {
    Seq::new(n, |i: int| ActorEvent::Acquired(false))
}

pub open spec fn retry_step() -> ActorStep {
    step_of(None, ActorAction::Acquire { delay_secs: RETRY_DELAY_SECS })
}

pub open spec fn stop_step() -> ActorStep {
    step_of(None, ActorAction::Stop)
}

/// A stopped poller awaits nothing, so it never acts again.
pub proof fn lemma_terminated_is_final(event: ActorEvent)
    ensures
        !accepts_spec(ActorState::Terminated, event),
{
}

/// Bounded retries: whenever a poller makes a first connection attempt, four
/// failed attempts in a row stop it after it has asked for exactly three
/// retries, each after the retry delay, so no fifth attempt is made; three
/// failures and then a success lead on to sensor resolution.
pub proof fn lemma_connect_retry_budget(state: ActorState, event: ActorEvent)
    requires
        accepts_spec(state, event),
        transition(state, event).1.action == (ActorAction::Acquire { delay_secs: 0 }),
    ensures
        accepts_all(transition(state, event).0, failed_attempts(4)),
        run(transition(state, event).0, failed_attempts(4))
            == (ActorState::Terminated, seq![retry_step(), retry_step(), retry_step(), stop_step()]),
        accepts_all(transition(state, event).0, failed_attempts(3).push(ActorEvent::Acquired(true))),
        run(transition(state, event).0, failed_attempts(3).push(ActorEvent::Acquired(true)))
            == (
            ActorState::Resolving,
            seq![retry_step(), retry_step(), retry_step(), step_of(None, ActorAction::Resolve)],
        ),
{
    let s0 = transition(state, event).0;
    assert(s0 == ActorState::Connecting { failures: 0 });
    let s1 = ActorState::Connecting { failures: 1 };
    let s2 = ActorState::Connecting { failures: 2 };
    let s3 = ActorState::Connecting { failures: 3 };
    let f4 = failed_attempts(4);
    assert(f4.drop_first() =~= failed_attempts(3));
    assert(failed_attempts(3).drop_first() =~= failed_attempts(2));
    assert(failed_attempts(2).drop_first() =~= failed_attempts(1));
    assert(failed_attempts(1).drop_first() =~= failed_attempts(0));
    assert(f4[0] == ActorEvent::Acquired(false));
    assert(failed_attempts(3)[0] == ActorEvent::Acquired(false));
    assert(failed_attempts(2)[0] == ActorEvent::Acquired(false));
    assert(failed_attempts(1)[0] == ActorEvent::Acquired(false));
    assert(run(ActorState::Terminated, failed_attempts(0)) == (ActorState::Terminated, Seq::<ActorStep>::empty()));
    assert(run(s3, failed_attempts(1)).1 =~= seq![stop_step()]);
    assert(run(s2, failed_attempts(2)).1 =~= seq![retry_step(), stop_step()]);
    assert(run(s1, failed_attempts(3)).1 =~= seq![retry_step(), retry_step(), stop_step()]);
    assert(run(s0, f4).1 =~= seq![retry_step(), retry_step(), retry_step(), stop_step()]);
    assert(accepts_all(ActorState::Terminated, failed_attempts(0)));
    assert(accepts_all(s3, failed_attempts(1)));
    assert(accepts_all(s2, failed_attempts(2)));
    assert(accepts_all(s1, failed_attempts(3)));

    let ok = seq![ActorEvent::Acquired(true)];
    let g3 = failed_attempts(3).push(ActorEvent::Acquired(true));
    let g2 = failed_attempts(2).push(ActorEvent::Acquired(true));
    let g1 = failed_attempts(1).push(ActorEvent::Acquired(true));
    assert(g3.drop_first() =~= g2);
    assert(g2.drop_first() =~= g1);
    assert(g1.drop_first() =~= ok);
    assert(ok.drop_first() =~= Seq::<ActorEvent>::empty());
    assert(g3[0] == ActorEvent::Acquired(false));
    assert(g2[0] == ActorEvent::Acquired(false));
    assert(g1[0] == ActorEvent::Acquired(false));
    assert(run(ActorState::Resolving, Seq::<ActorEvent>::empty()) == (ActorState::Resolving, Seq::<ActorStep>::empty()));
    assert(run(s3, ok).1 =~= seq![step_of(None, ActorAction::Resolve)]);
    assert(run(s2, g1).1 =~= seq![retry_step(), step_of(None, ActorAction::Resolve)]);
    assert(run(s1, g2).1 =~= seq![retry_step(), retry_step(), step_of(None, ActorAction::Resolve)]);
    assert(run(s0, g3).1 =~= seq![retry_step(), retry_step(), retry_step(), step_of(None, ActorAction::Resolve)]);
    assert(accepts_all(ActorState::Resolving, Seq::<ActorEvent>::empty()));
    assert(accepts_all(s3, ok));
    assert(accepts_all(s2, g1));
    assert(accepts_all(s1, g2));
}

/// A vanished sensor that resolves again: the poller resolves once, then goes
/// straight on reading the new sensor, with no new connection asked for and
/// nothing published in between.
pub proof fn lemma_vanished_sensor_reresolved(sensor_id: String, new_id: String)
    ensures
        accepts_all(
            ActorState::Reading { sensor_id },
            seq![ActorEvent::ValueAbsent, ActorEvent::Resolved(Some(new_id))],
        ),
        run(
            ActorState::Reading { sensor_id },
            seq![ActorEvent::ValueAbsent, ActorEvent::Resolved(Some(new_id))],
        ) == (
            ActorState::Reading { sensor_id: new_id },
            seq![
                step_of(None, ActorAction::Resolve),
                step_of(None, ActorAction::Read { sensor_id: new_id, delay_secs: 0 }),
            ],
        ),
{
    let evs = seq![ActorEvent::ValueAbsent, ActorEvent::Resolved(Some(new_id))];
    let last = seq![ActorEvent::Resolved(Some(new_id))];
    assert(evs.drop_first() =~= last);
    assert(last.drop_first() =~= Seq::<ActorEvent>::empty());
    let reading = ActorState::Reading { sensor_id: new_id };
    assert(run(reading, Seq::<ActorEvent>::empty()) == (reading, Seq::<ActorStep>::empty()));
    assert(run(ActorState::Resolving, last).1
        =~= seq![step_of(None, ActorAction::Read { sensor_id: new_id, delay_secs: 0 })]);
    assert(accepts_all(reading, Seq::<ActorEvent>::empty()));
    assert(accepts_all(ActorState::Resolving, last));
    assert(run(ActorState::Reading { sensor_id }, evs).1 =~= seq![
        step_of(None, ActorAction::Resolve),
        step_of(None, ActorAction::Read { sensor_id: new_id, delay_secs: 0 }),
    ]);
}

/// A vanished sensor that cannot be resolved again stops the poller without
/// publishing anything, so the reading last published stays in place.
pub proof fn lemma_vanished_sensor_unresolvable(sensor_id: String)
    ensures
        accepts_all(
            ActorState::Reading { sensor_id },
            seq![ActorEvent::ValueAbsent, ActorEvent::Resolved(None)],
        ),
        run(ActorState::Reading { sensor_id }, seq![ActorEvent::ValueAbsent, ActorEvent::Resolved(None)])
            == (ActorState::Terminated, seq![step_of(None, ActorAction::Resolve), stop_step()]),
{
    let evs = seq![ActorEvent::ValueAbsent, ActorEvent::Resolved(None)];
    let last = seq![ActorEvent::Resolved(None)];
    assert(evs.drop_first() =~= last);
    assert(last.drop_first() =~= Seq::<ActorEvent>::empty());
    assert(run(ActorState::Terminated, Seq::<ActorEvent>::empty())
        == (ActorState::Terminated, Seq::<ActorStep>::empty()));
    assert(run(ActorState::Resolving, last).1 =~= seq![stop_step()]);
    assert(accepts_all(ActorState::Terminated, Seq::<ActorEvent>::empty()));
    assert(accepts_all(ActorState::Resolving, last));
    assert(run(ActorState::Reading { sensor_id }, evs).1
        =~= seq![step_of(None, ActorAction::Resolve), stop_step()]);
}

/// The reading that an event carries, if it is a successful read.
pub open spec fn publish_of(event: ActorEvent) -> Option<u32> {
    match event {
        ActorEvent::ValueRead(v) => Some(v),
        _ => None,
    }
}

/// The published cell after the steps `steps`, starting from `cell`.
pub open spec fn cell_after(cell: u32, steps: Seq<ActorStep>) -> u32
    decreases steps.len(),
{
    if steps.len() == 0 {
        cell
    } else {
        let next = match steps[0].publish {
            Some(v) => v,
            None => cell,
        };
        cell_after(next, steps.drop_first())
    }
}

/// The reading of the last successful read among `events`, or `cell` if
/// there is none.
pub open spec fn last_reading(cell: u32, events: Seq<ActorEvent>) -> u32
    decreases events.len(),
{
    if events.len() == 0 {
        cell
    } else {
        let next = match events[0] {
            ActorEvent::ValueRead(v) => v,
            _ => cell,
        };
        last_reading(next, events.drop_first())
    }
}

/// An awaited event makes the poller publish exactly the reading it
/// carries, and nothing on any other outcome.
pub proof fn lemma_publish_only_readings(state: ActorState, event: ActorEvent)
    requires
        accepts_spec(state, event),
    ensures
        transition(state, event).1.publish == publish_of(event),
{
}

/// The published cell holds its initial value (the sentinel, for a new
/// metric) until a read succeeds, and from then on the reading of the most
/// recent successful read: failed reads, vanished sensors, connection and
/// resolution outcomes and termination leave it as it is.
pub proof fn lemma_cell_tracks_last_reading(state: ActorState, events: Seq<ActorEvent>, cell: u32)
    requires
        accepts_all(state, events),
    ensures
        cell_after(cell, run(state, events).1) == last_reading(cell, events),
    decreases events.len(),
{
    if events.len() > 0 {
        let (next, step) = transition(state, events[0]);
        let rest = events.drop_first();
        let (last, steps) = run(next, rest);
        lemma_publish_only_readings(state, events[0]);
        let all = run(state, events).1;
        assert(all == seq![step] + steps);
        assert(all[0] == step);
        assert(all.drop_first() =~= steps);
        let c1 = match step.publish {
            Some(v) => v,
            None => cell,
        };
        lemma_cell_tracks_last_reading(next, rest, c1);
    }
}

} // verus!
