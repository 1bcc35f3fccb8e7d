use vstd::prelude::*;
use crate::message::{decode_spec, DisplayMessageIn, DisplayMessageOut, NonceField};
use crate::metric::{MetricKind, SENTINEL};

verus! {

/// The bridge's record of one metric: whether its poller has been spawned,
/// and the reading last published for it.
#[derive(Clone, Copy, Debug, PartialEq, Eq, Structural)]
pub struct MetricSlot {
    pub started: bool,
    pub latest: u32,
}

/// What a query hands back: the reading to report, and whether the caller
/// must spawn the metric's poller now.
#[derive(Clone, Copy, Debug, PartialEq, Eq, Structural)]
pub struct ValueQuery {
    pub value: u32,
    pub spawn: bool,
}

/// The answer to a display message: the reply to send, and whether the
/// caller must spawn the poller of the metric asked about.
#[derive(Clone, Copy, Debug, PartialEq, Eq, Structural)]
pub struct DisplayResponse {
    pub reply: DisplayMessageOut,
    pub spawn: bool,
}

impl MetricSlot {
    /// A metric never queried and never polled.
    pub open spec fn fresh() -> MetricSlot {
        MetricSlot { started: false, latest: SENTINEL }
    }

    /// The slot after a query: its poller is recorded as spawned.
    pub open spec fn queried(self) -> MetricSlot {
        MetricSlot { started: true, latest: self.latest }
    }

    /// The slot after its poller published `value`.
    pub open spec fn published(self, value: u32) -> MetricSlot {
        MetricSlot { started: self.started, latest: value }
    }

    /// What a query of this slot hands back.
    pub open spec fn query_result(self) -> ValueQuery {
        ValueQuery { value: self.latest, spawn: !self.started }
    }

    /// The slot after `n` queries in a row.
    pub open spec fn after_queries(self, n: nat) -> MetricSlot
        decreases n,
    {
        if n == 0 {
            self
        } else {
            self.after_queries((n - 1) as nat).queried()
        }
    }
}

/// The response to `msg` from a slot in state `slot`.
pub open spec fn respond_spec(slot: MetricSlot, msg: DisplayMessageIn) -> DisplayResponse {
    DisplayResponse {
        reply: match msg.kind_spec() {
            MetricKind::CpuTemp => DisplayMessageOut::CpuTemp { value: slot.latest, nonce: msg.nonce_spec() },
            MetricKind::GpuTemp => DisplayMessageOut::GpuTemp { value: slot.latest, nonce: msg.nonce_spec() },
        },
        spawn: !slot.started,
    }
}

/// The request bridge: answers value queries from the latest published
/// readings, and asks for each metric's poller to be spawned on the first
/// query about it, once.
pub struct IndicatorsPlugin {
    cpu: MetricSlot,
    gpu: MetricSlot,
}

impl IndicatorsPlugin {
    pub closed spec fn slot(&self, kind: MetricKind) -> MetricSlot {
        match kind {
            MetricKind::CpuTemp => self.cpu,
            MetricKind::GpuTemp => self.gpu,
        }
    }

    /// No poller spawned, every reading at the sentinel.
    pub fn new() -> (r: IndicatorsPlugin)
        ensures
            forall|k: MetricKind| #[trigger] r.slot(k) == MetricSlot::fresh(),
    {
        IndicatorsPlugin {
            cpu: MetricSlot { started: false, latest: SENTINEL },
            gpu: MetricSlot { started: false, latest: SENTINEL },
        }
    }

    /// The slot of `kind`.
    pub fn slot_of(&self, kind: MetricKind) -> (r: MetricSlot)
        ensures
            r == self.slot(kind),
    {
        match kind {
            MetricKind::CpuTemp => self.cpu,
            MetricKind::GpuTemp => self.gpu,
        }
    }

    fn set_slot(&mut self, kind: MetricKind, slot: MetricSlot)
        ensures
            final(self).slot(kind) == slot,
            forall|k: MetricKind| k != kind ==> #[trigger] final(self).slot(k) == old(self).slot(k),
    {
        match kind {
            MetricKind::CpuTemp => self.cpu = slot,
            MetricKind::GpuTemp => self.gpu = slot,
        }
    }

    /// The reading last published for `kind`, or the sentinel.
    pub fn latest(&self, kind: MetricKind) -> (r: u32)
        ensures
            r == self.slot(kind).latest,
    {
        self.slot_of(kind).latest
    }

    /// Whether the poller of `kind` has been spawned.
    pub fn is_started(&self, kind: MetricKind) -> (r: bool)
        ensures
            r == self.slot(kind).started,
    {
        self.slot_of(kind).started
    }

    /// Records a reading published by the poller of `kind`.
    pub fn publish(&mut self, kind: MetricKind, value: u32)
        ensures
            final(self).slot(kind) == old(self).slot(kind).published(value),
            forall|k: MetricKind| k != kind ==> #[trigger] final(self).slot(k) == old(self).slot(k),
    {
        let slot = self.slot_of(kind);
        self.set_slot(kind, MetricSlot { started: slot.started, latest: value });
    }

    /// Answers a value query about `kind` with the reading last published,
    /// and on the first query about `kind` asks for its poller to be spawned.
    pub fn get_value(&mut self, kind: MetricKind) -> (r: ValueQuery)
        ensures
            r == old(self).slot(kind).query_result(),
            final(self).slot(kind) == old(self).slot(kind).queried(),
            forall|k: MetricKind| k != kind ==> #[trigger] final(self).slot(k) == old(self).slot(k),
    {
        let slot = self.slot_of(kind);
        self.set_slot(kind, MetricSlot { started: true, latest: slot.latest });
        ValueQuery { value: slot.latest, spawn: !slot.started }
    }

    /// Answers a query from a display: the reply carries the metric's latest
    /// reading and echoes the query's nonce.
    pub fn handle_message(&mut self, msg: DisplayMessageIn) -> (r: DisplayResponse)
        ensures
            r == respond_spec(old(self).slot(msg.kind_spec()), msg),
            final(self).slot(msg.kind_spec()) == old(self).slot(msg.kind_spec()).queried(),
            forall|k: MetricKind| k != msg.kind_spec() ==> #[trigger] final(self).slot(k) == old(self).slot(k),
    {
        let kind = msg.kind();
        let q = self.get_value(kind);
        DisplayResponse { reply: DisplayMessageOut::reply(kind, q.value, msg.nonce()), spawn: q.spawn }
    }

    /// Handles a display message given by its type tag and nonce field. A
    /// message that does not decode is dropped: `None`, nothing changed.
    pub fn on_display_message(&mut self, tag: Option<String>, field: NonceField) -> (r: Option<DisplayResponse>)
        ensures
            ({
                let decoded = decode_spec(
                    match tag {
                        Some(t) => Some(t@),
                        None => None,
                    },
                    field,
                );
                match decoded {
                    None => r is None && *final(self) == *old(self),
                    Some(msg) => r == Some(respond_spec(old(self).slot(msg.kind_spec()), msg))
                        && final(self).slot(msg.kind_spec()) == old(self).slot(msg.kind_spec()).queried()
                        && forall|k: MetricKind| k != msg.kind_spec()
                            ==> #[trigger] final(self).slot(k) == old(self).slot(k),
                }
            }),
    {
        match DisplayMessageIn::decode(tag, field) {
            None => None,
            Some(msg) => Some(self.handle_message(msg)),
        }
    }
}

/// Queries never change a reading: after any number of them the slot holds
/// the reading it held before, and its poller is recorded as spawned once at
/// least one was made.
pub proof fn lemma_queries_keep_value(slot: MetricSlot, n: nat)
    ensures
        slot.after_queries(n).latest == slot.latest,
        n > 0 ==> slot.after_queries(n).started,
        n == 0 ==> slot.after_queries(n) == slot,
    decreases n,
{
    if n > 0 {
        lemma_queries_keep_value(slot, (n - 1) as nat);
    }
}

/// Until its poller publishes, every query about a metric, however many came
/// before it, reports the sentinel.
pub proof fn lemma_sentinel_before_publish(n: nat)
    ensures
        MetricSlot::fresh().after_queries(n).query_result().value == SENTINEL,
{
    lemma_queries_keep_value(MetricSlot::fresh(), n);
}

/// Lazy start happens once: of any run of queries about a metric, only the
/// first can ask for its poller to be spawned; in particular two queries in
/// immediate succession never both do.
pub proof fn lemma_single_spawn(slot: MetricSlot, n: nat)
    ensures
        n > 0 ==> !slot.after_queries(n).query_result().spawn,
        !(slot.query_result().spawn && slot.queried().query_result().spawn),
{
    lemma_queries_keep_value(slot, n);
}

/// Readings are sticky: once a reading is published, every later query
/// reports it until another is published, also when the poller has stopped.
pub proof fn lemma_value_sticky(slot: MetricSlot, value: u32, n: nat)
    ensures
        slot.published(value).after_queries(n).query_result().value == value,
{
    lemma_queries_keep_value(slot.published(value), n);
}

/// A published reading is handed to each of two queries that follow, each
/// reply echoing its own query's nonce unchanged.
pub proof fn lemma_published_value_read_back(
    slot: MetricSlot,
    value: u32,
    first: DisplayMessageIn,
    second: DisplayMessageIn,
)
    requires
        first.kind_spec() == second.kind_spec(),
    ensures
        respond_spec(slot.published(value), first).reply.value_spec() == value,
        respond_spec(slot.published(value), first).reply.nonce_spec() == first.nonce_spec(),
        respond_spec(slot.published(value), first).reply.kind_spec() == first.kind_spec(),
        respond_spec(slot.published(value).queried(), second).reply.value_spec() == value,
        respond_spec(slot.published(value).queried(), second).reply.nonce_spec() == second.nonce_spec(),
        respond_spec(slot.published(value).queried(), second).reply.kind_spec() == second.kind_spec(),
{
}

} // verus!
