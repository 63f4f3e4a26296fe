//! Moment publisher: version-counted snapshots of the transport position.
//!
//! The realtime renderer publishes a fresh transport snapshot on every
//! callback and may never block on a reader; the UI reads the snapshot
//! without ever blocking the audio thread. The write protocol bumps a
//! version counter before and after the payload is written, so the counter
//! is odd exactly while a write is in flight. A reader samples the counter,
//! the payload, and the counter again, and accepts the payload only when
//! both samples are equal and even. The trace model below proves that an
//! accepted read can never be torn: between two equal, even counter samples
//! the writer has taken no step at all.

use vstd::prelude::*;

verus! {

/// Current transport position of a playing session.
#[derive(Clone, Copy, PartialEq, Eq, Structural, Debug)]
pub struct MomentState {
    pub order: usize,
    pub pattern: usize,
    pub row: usize,
    pub speed: usize,
    pub tempo: usize,
}

impl MomentState {
    pub open spec fn spec_zeroed() -> MomentState {
        MomentState { order: 0, pattern: 0, row: 0, speed: 0, tempo: 0 }
    }
}

impl Default for MomentState {
    fn default() -> (r: MomentState)
        ensures
            r == MomentState::spec_zeroed(),
    {
        MomentState { order: 0, pattern: 0, row: 0, speed: 0, tempo: 0 }
    }
}

/// The writer-side state of a publisher at one instant: the version
/// counter and the payload slot. The payload type is anything published
/// under this discipline — the transport position here, the decode
/// telemetry in the same way.
pub struct PublisherState<T> {
    pub version: nat,
    pub data: T,
}

/// One atomic action of the single designated writer.
pub enum WriterStep<T> {
    /// Bump the counter to odd: a write begins.
    Begin,
    /// Overwrite the payload slot while the counter is odd.
    Store(T),
    /// Bump the counter to even: the write is complete.
    End,
}

/// The write protocol: begin only when idle, touch the payload and finish
/// only while a write is in flight.
pub open spec fn step_allowed<T>(s: PublisherState<T>, step: WriterStep<T>) -> bool {
    match step {
        WriterStep::Begin => s.version % 2 == 0,
        WriterStep::Store(_) => s.version % 2 == 1,
        WriterStep::End => s.version % 2 == 1,
    }
}

/// What one writer step does to the publisher.
pub open spec fn step_apply<T>(s: PublisherState<T>, step: WriterStep<T>) -> PublisherState<T> {
    match step {
        WriterStep::Begin => PublisherState { version: s.version + 1, ..s },
        WriterStep::Store(d) => PublisherState { data: d, ..s },
        WriterStep::End => PublisherState { version: s.version + 1, ..s },
    }
}

/// All states the writer passes through: entry `k` holds after the first
/// `k` steps, so the sequence is one longer than the step list.
pub open spec fn trace_states<T>(init: PublisherState<T>, steps: Seq<WriterStep<T>>) -> Seq<PublisherState<T>>
    decreases steps.len(),
{
    if steps.len() == 0 {
        seq![init]
    } else {
        seq![init] + trace_states(step_apply(init, steps[0]), steps.drop_first())
    }
}

/// Every step of the trace obeys the write protocol.
pub open spec fn trace_valid<T>(init: PublisherState<T>, steps: Seq<WriterStep<T>>) -> bool
    decreases steps.len(),
{
    steps.len() == 0 || (step_allowed(init, steps[0]) && trace_valid(
        step_apply(init, steps[0]),
        steps.drop_first(),
    ))
}

pub proof fn lemma_trace_shape<T>(init: PublisherState<T>, steps: Seq<WriterStep<T>>)
    ensures
        trace_states(init, steps).len() == steps.len() + 1,
        trace_states(init, steps)[0] == init,
    decreases steps.len(),
{
    if steps.len() > 0 {
        lemma_trace_shape(step_apply(init, steps[0]), steps.drop_first());
    }
}

/// Adjacent trace entries are related by the step between them, and in a
/// valid trace that step was allowed where it was taken.
pub proof fn lemma_trace_step<T>(init: PublisherState<T>, steps: Seq<WriterStep<T>>, k: int)
    requires
        0 <= k < steps.len(),
    ensures
        trace_states(init, steps)[k + 1] == step_apply(trace_states(init, steps)[k], steps[k]),
        trace_valid(init, steps) ==> step_allowed(trace_states(init, steps)[k], steps[k]),
    decreases steps.len(),
{
    lemma_trace_shape(init, steps);
    lemma_trace_shape(step_apply(init, steps[0]), steps.drop_first());
    if k == 0 {
    } else {
        lemma_trace_step(step_apply(init, steps[0]), steps.drop_first(), k - 1);
        assert(steps.drop_first()[k - 1] == steps[k]);
    }
}

/// The version counter never decreases along the writer's history.
pub proof fn lemma_version_monotonic<T>(init: PublisherState<T>, steps: Seq<WriterStep<T>>, i: int, j: int)
    requires
        0 <= i <= j < trace_states(init, steps).len(),
    ensures
        trace_states(init, steps)[i].version <= trace_states(init, steps)[j].version,
    decreases j - i,
{
    lemma_trace_shape(init, steps);
    if i < j {
        lemma_trace_step(init, steps, i);
        lemma_version_monotonic(init, steps, i + 1, j);
    }
}

/// A validated read is never torn. If the version counter is even and
/// unchanged between two points of a protocol-obeying writer history, the
/// writer took no step at all in that window, so the payload (and the whole
/// state) is the same at every point a reader could have sampled it.
pub proof fn lemma_validated_read_consistent<T>(
    init: PublisherState<T>,
    steps: Seq<WriterStep<T>>,
    i: int,
    j: int,
    k: int,
)
    requires
        trace_valid(init, steps),
        0 <= i <= k <= j < trace_states(init, steps).len(),
        trace_states(init, steps)[i].version == trace_states(init, steps)[j].version,
        trace_states(init, steps)[i].version % 2 == 0,
    ensures
        trace_states(init, steps)[k] == trace_states(init, steps)[i],
{
    lemma_trace_shape(init, steps);
    if i < j {
        lemma_trace_step(init, steps, i);
        // From an even counter the only allowed step is Begin, which raises
        // the counter; the counter never falls back, contradicting equal
        // versions at `i` and `j`.
        lemma_version_monotonic(init, steps, i + 1, j);
        assert(false);
    }
}

/// Validity restricted to a step index: every prefix of a valid trace took
/// only allowed steps (helper for stating invariants).
pub open spec fn stored_data_ok<T>(steps: Seq<WriterStep<T>>, inv: spec_fn(T) -> bool) -> bool {
    forall|idx: int|
        0 <= idx < steps.len() ==> match #[trigger] steps[idx] {
            WriterStep::Store(d) => inv(d),
            _ => true,
        }
}

/// Snapshot invariants survive publication: if the initial payload and
/// every stored payload satisfy an invariant (say, `order < order_count`),
/// then the payload at any point of the history satisfies it — so a
/// validated read always hands the UI an internally consistent snapshot.
pub proof fn lemma_read_meets_invariant<T>(
    init: PublisherState<T>,
    steps: Seq<WriterStep<T>>,
    k: int,
    inv: spec_fn(T) -> bool,
)
    requires
        inv(init.data),
        stored_data_ok(steps, inv),
        0 <= k < trace_states(init, steps).len(),
    ensures
        inv(trace_states(init, steps)[k].data),
    decreases k,
{
    lemma_trace_shape(init, steps);
    if k > 0 {
        lemma_trace_step(init, steps, k - 1);
        lemma_read_meets_invariant(init, steps, k - 1, inv);
    }
}

/// The publisher itself: a version counter and the payload slot, owned by
/// the single writer. Kept in shared memory by the application; readers use
/// `read_validate` on two counter samples taken around their payload read.
pub struct MomentPublisher {
    pub version: u64,
    pub data: MomentState,
}

/// The three writer steps of one complete publication.
pub open spec fn publish_steps<T>(d: T) -> Seq<WriterStep<T>> {
    seq![WriterStep::Begin, WriterStep::Store(d), WriterStep::End]
}

impl MomentPublisher {
    /// The abstract writer state this publisher is in.
    pub open spec fn state(self) -> PublisherState<MomentState> {
        PublisherState { version: self.version as nat, data: self.data }
    }

    /// Idle: no write is in flight.
    pub open spec fn wf(self) -> bool {
        self.version % 2 == 0
    }

    pub fn new() -> (r: MomentPublisher)
        ensures
            r.version == 0,
            r.data == MomentState::spec_zeroed(),
            r.wf(),
    {
        MomentPublisher { version: 0, data: MomentState::default() }
    }

    /// First protocol step: bump the counter to odd.
    pub fn begin_write(&mut self)
        requires
            old(self).wf(),
            old(self).version + 2 <= u64::MAX,
        ensures
            *final(self) == (MomentPublisher { version: (old(self).version + 1) as u64, ..*old(self) }),
            final(self).state() == step_apply(old(self).state(), WriterStep::Begin),
            step_allowed(old(self).state(), WriterStep::Begin),
    {
        self.version = self.version + 1;
    }

    /// Second protocol step: overwrite the payload while the counter is odd.
    pub fn store(&mut self, d: MomentState)
        requires
            old(self).version % 2 == 1,
        ensures
            *final(self) == (MomentPublisher { data: d, ..*old(self) }),
            final(self).state() == step_apply(old(self).state(), WriterStep::Store(d)),
            step_allowed(old(self).state(), WriterStep::Store(d)),
    {
        self.data = d;
    }

    /// Last protocol step: bump the counter back to even.
    pub fn end_write(&mut self)
        requires
            old(self).version % 2 == 1,
            old(self).version + 1 <= u64::MAX,
        ensures
            *final(self) == (MomentPublisher { version: (old(self).version + 1) as u64, ..*old(self) }),
            final(self).state() == step_apply(old(self).state(), WriterStep::End),
            step_allowed(old(self).state(), WriterStep::End),
            final(self).wf(),
    {
        self.version = self.version + 1;
    }

    /// One complete publication: exactly the protocol's three steps, which
    /// form a valid trace from the old state to the new one.
    pub fn publish(&mut self, d: MomentState)
        requires
            old(self).wf(),
            old(self).version + 2 <= u64::MAX,
        ensures
            final(self).version == old(self).version + 2,
            final(self).data == d,
            final(self).wf(),
            trace_valid(old(self).state(), publish_steps(d)),
            trace_states(old(self).state(), publish_steps(d)).last() == final(self).state(),
    {
        let ghost s0 = self.state();
        self.begin_write();
        let ghost s1 = self.state();
        self.store(d);
        let ghost s2 = self.state();
        self.end_write();
        proof {
            let steps = publish_steps(d);
            let t1 = steps.drop_first();
            let t2 = t1.drop_first();
            let t3 = t2.drop_first();
            let s3 = self.state();
            assert(steps[0] == WriterStep::<MomentState>::Begin);
            assert(t1 =~= seq![WriterStep::Store(d), WriterStep::End]);
            assert(t2 =~= seq![WriterStep::End]);
            assert(t3 =~= Seq::<WriterStep<MomentState>>::empty());
            assert(step_apply(s0, WriterStep::Begin) == s1);
            assert(step_apply(s1, WriterStep::Store(d)) == s2);
            assert(step_apply(s2, WriterStep::End) == s3);
            assert(trace_states(s3, t3) =~= seq![s3]);
            assert(trace_states(s2, t2) =~= seq![s2] + trace_states(s3, t3));
            assert(trace_states(s1, t1) =~= seq![s1] + trace_states(s2, t2));
            assert(trace_states(s0, steps) =~= seq![s0] + trace_states(s1, t1));
            assert(trace_valid(s3, t3));
            assert(trace_valid(s2, t2));
            assert(trace_valid(s1, t1));
            assert(trace_valid(s0, steps));
            assert(trace_states(s0, steps) =~= seq![s0, s1, s2, s3]);
        }
    }

    /// What the UI's reader sees when it samples the payload.
    pub fn read(&self) -> (r: MomentState)
        ensures
            r == self.data,
    {
        self.data
    }

    /// The counter sample a reader takes before and after the payload.
    pub fn read_version(&self) -> (r: u64)
        ensures
            r == self.version,
    {
        self.version
    }
}

/// The reader's acceptance test: a snapshot is kept only when the two
/// counter samples around it are equal and even; otherwise the reader
/// retries.
pub fn read_validate(v1: u64, v2: u64) -> (r: bool)
    ensures
        r == (v1 == v2 && v1 % 2 == 0),
{
    v1 == v2 && v1 % 2 == 0
}

} // verus!
