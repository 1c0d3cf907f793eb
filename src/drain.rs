use vstd::prelude::*;
use crate::batch::{append_bytes, batch_bytes, empty_batch, Batch};
use crate::framing::{read_command, spec_read_command};
use crate::registers::{sample_count, spec_sample_count, Register, SAMPLE_BYTES};
use crate::spi::{Error, SAMPLE_DELAY_US};

verus! {

/// Where a FIFO drain stands.
#[derive(Debug, Clone, Copy, PartialEq, Eq, Structural)]
pub enum DrainPhase {
    /// Waiting for the FIFO-control byte that gives the sample count.
    AwaitCount,
    /// Waiting for the 6 bytes of the next sample.
    AwaitSample,
    /// Waiting for the pause that follows each sample read.
    AwaitDelay,
    /// The drain has delivered its outcome.
    Finished,
}

/// What the bus and the timer reported for the last request.
pub enum Event<E> {
    /// The bytes that the requested read delivered.
    Received(Vec<u8>),
    /// The requested delay has elapsed.
    Waited,
    /// The bus transaction failed.
    Failed(E),
}

/// What the drain asks for next.
pub enum Action<E> {
    /// One bus transaction: send the command byte, then read `len` bytes.
    Read { cmd: u8, len: usize },
    /// Wait this many microseconds.
    DelayUs(u32),
    /// The drain is over: the whole batch, or the first failure.
    Complete(Result<Batch, Error<E>>),
}

/// Abstract state of a drain.
pub struct DrainState {
    pub phase: DrainPhase,
    /// Samples that the FIFO reported.
    pub samples: nat,
    /// Samples read so far.
    pub taken: nat,
    /// Bytes of the samples read so far.
    pub data: Seq<u8>,
}

/// The state of a drain that has not started, or has delivered its outcome.
pub open spec fn idle_state(phase: DrainPhase) -> DrainState {
    DrainState { phase, samples: 0, taken: 0, data: Seq::empty() }
}

/// The request for the FIFO-control register.
pub open spec fn is_count_read<E>(a: Action<E>) -> bool {
    a matches Action::Read { cmd, len } && cmd == spec_read_command(Register::FifoCtl, 1)
        && len == 1
}

/// The burst read of one sample from the first data register.
pub open spec fn is_sample_read<E>(a: Action<E>) -> bool {
    a matches Action::Read { cmd, len } && cmd == spec_read_command(Register::DataX0, 6) && len
        == 6
}

/// The pause after a sample read.
pub open spec fn is_sample_delay<E>(a: Action<E>) -> bool {
    a matches Action::DelayUs(us) && us == SAMPLE_DELAY_US
}

/// The drain ends with a batch holding exactly `data`.
pub open spec fn is_batch<E>(a: Action<E>, data: Seq<u8>) -> bool {
    a matches Action::Complete(Ok(b)) && batch_bytes(b) == data
}

/// One step of the drain: from state `s`, on `event`, to state `t` with action `a`.
pub open spec fn drain_step<E>(
    s: DrainState,
    event: Event<E>,
    t: DrainState,
    a: Action<E>,
) -> bool {
    let received = event->Received_0@;
    if s.phase == DrainPhase::AwaitCount && event is Received && received.len() == 1 {
        let n = spec_sample_count(received[0]);
        if n == 0 {
            t == idle_state(DrainPhase::Finished) && is_batch(a, Seq::empty())
        } else {
            t == (DrainState {
                phase: DrainPhase::AwaitSample,
                samples: n as nat,
                taken: 0,
                data: Seq::empty(),
            }) && is_sample_read(a)
        }
    } else if s.phase == DrainPhase::AwaitSample && event is Received && received.len() == 6 {
        t == (DrainState {
            phase: DrainPhase::AwaitDelay,
            samples: s.samples,
            taken: s.taken + 1,
            data: s.data + received,
        }) && is_sample_delay(a)
    } else if s.phase == DrainPhase::AwaitDelay && event is Waited {
        if s.taken < s.samples {
            t == (DrainState { phase: DrainPhase::AwaitSample, ..s }) && is_sample_read(a)
        } else {
            t == idle_state(DrainPhase::Finished) && is_batch(a, s.data)
        }
    } else if s.phase != DrainPhase::Finished && event is Failed {
        t == idle_state(DrainPhase::Finished) && a == Action::Complete(
            Err::<Batch, Error<E>>(Error::SpiError(event->Failed_0)),
        )
    } else {
        t == idle_state(DrainPhase::Finished) && a == Action::<E>::Complete(
            Err(Error::InvalidBuffer),
        )
    }
}

/// `states`, `events` and `actions` form a run of the drain: each state
/// goes to the next on its event, with its action.
pub open spec fn is_run<E>(
    states: Seq<DrainState>,
    events: Seq<Event<E>>,
    actions: Seq<Action<E>>,
) -> bool {
    &&& states.len() == events.len() + 1
    &&& actions.len() == events.len()
    &&& forall|i: int|
        0 <= i < events.len() ==> drain_step(
            states[i],
            #[trigger] events[i],
            states[i + 1],
            actions[i],
        )
}

/// The bus and the timer answer every request of a drain as asked: the
/// FIFO-control register reads `count_byte`, each sample read delivers 6
/// bytes and each delay elapses.
pub open spec fn answers_all<E>(events: Seq<Event<E>>, count_byte: u8) -> bool {
    let n = spec_sample_count(count_byte) as int;
    &&& events.len() == 1 + 2 * n
    &&& events[0] is Received
    &&& events[0]->Received_0@ == seq![count_byte]
    &&& forall|j: int|
        0 <= j < n ==> (#[trigger] events[2 * j + 1]) is Received
            && events[2 * j + 1]->Received_0@.len() == 6
    &&& forall|j: int| 0 <= j < n ==> (#[trigger] events[2 * j + 2]) is Waited
}

/// The bytes of the first `k` samples of a run, in the order read.
pub open spec fn sample_bytes<E>(events: Seq<Event<E>>, k: nat) -> Seq<u8>
    decreases k,
{
    if k == 0 {
        Seq::empty()
    } else {
        sample_bytes(events, (k - 1) as nat) + events[2 * k - 1]->Received_0@
    }
}

proof fn lemma_step_at<E>(
    states: Seq<DrainState>,
    events: Seq<Event<E>>,
    actions: Seq<Action<E>>,
    i: int,
)
    requires
        is_run(states, events, actions),
        0 <= i < events.len(),
    ensures
        drain_step(states[i], events[i], states[i + 1], actions[i]),
{
}

proof fn lemma_drain_prefix<E>(
    states: Seq<DrainState>,
    events: Seq<Event<E>>,
    actions: Seq<Action<E>>,
    count_byte: u8,
    k: nat,
)
    requires
        is_run(states, events, actions),
        states[0] == idle_state(DrainPhase::AwaitCount),
        answers_all(events, count_byte),
        k < spec_sample_count(count_byte),
    ensures
        states[2 * (k as int) + 1] == (DrainState {
            phase: DrainPhase::AwaitSample,
            samples: spec_sample_count(count_byte) as nat,
            taken: k,
            data: sample_bytes(events, k),
        }),
        is_sample_read(actions[2 * k as int]),
        sample_bytes(events, k).len() == 6 * k,
    decreases k,
{
    lemma_step_at(states, events, actions, 0);
    if k > 0 {
        let j: int = k - 1;
        lemma_drain_prefix(states, events, actions, count_byte, j as nat);
        assert(events[2 * j + 1] is Received);
        assert(events[2 * j + 2] is Waited);
        lemma_step_at(states, events, actions, 2 * j + 1);
        lemma_step_at(states, events, actions, 2 * j + 2);
    }
}

/// A drain whose requests are all answered reads each reported sample with
/// one 6-byte burst read from the first data register, pauses after each
/// read, and delivers exactly the bytes read, 6 per sample.
pub proof fn lemma_drain_reads_every_sample<E>(
    states: Seq<DrainState>,
    events: Seq<Event<E>>,
    actions: Seq<Action<E>>,
    count_byte: u8,
)
    requires
        is_run(states, events, actions),
        states[0] == idle_state(DrainPhase::AwaitCount),
        answers_all(events, count_byte),
    ensures
        forall|k: int|
            0 <= k < spec_sample_count(count_byte) ==> is_sample_read(#[trigger] actions[2 * k])
                && is_sample_delay(actions[2 * k + 1]),
        is_batch(
            actions[2 * (spec_sample_count(count_byte) as int)],
            sample_bytes(events, spec_sample_count(count_byte) as nat),
        ),
        sample_bytes(events, spec_sample_count(count_byte) as nat).len() == 6
            * spec_sample_count(count_byte),
{
    let n = spec_sample_count(count_byte) as nat;
    lemma_step_at(states, events, actions, 0);
    assert forall|k: int| 0 <= k < n implies is_sample_read(#[trigger] actions[2 * k])
        && is_sample_delay(actions[2 * k + 1]) by {
        lemma_drain_prefix(states, events, actions, count_byte, k as nat);
        assert(events[2 * k + 1] is Received);
        lemma_step_at(states, events, actions, 2 * k + 1);
    }
    if n > 0 {
        let j: int = n - 1;
        lemma_drain_prefix(states, events, actions, count_byte, j as nat);
        assert(events[2 * j + 1] is Received);
        assert(events[2 * j + 2] is Waited);
        lemma_step_at(states, events, actions, 2 * j + 1);
        lemma_step_at(states, events, actions, 2 * j + 2);
    }
}

/// When the FIFO reports no samples, the drain ends on the count byte with an
/// empty batch and requests no sample read.
pub proof fn lemma_empty_fifo_reads_nothing<E>(
    count_byte: u8,
    bytes: Vec<u8>,
    t: DrainState,
    a: Action<E>,
)
    requires
        spec_sample_count(count_byte) == 0,
        bytes@ == seq![count_byte],
        drain_step(idle_state(DrainPhase::AwaitCount), Event::<E>::Received(bytes), t, a),
    ensures
        is_batch(a, Seq::empty()),
        !(a is Read),
        t.phase == DrainPhase::Finished,
{
}

/// A transport failure at any point of an unfinished drain ends it with that
/// very error and no batch: the samples read so far are dropped.
pub proof fn lemma_failure_discards_batch<E>(s: DrainState, e: E, t: DrainState, a: Action<E>)
    requires
        s.phase != DrainPhase::Finished,
        drain_step(s, Event::Failed(e), t, a),
    ensures
        a == Action::Complete(Err::<Batch, Error<E>>(Error::SpiError(e))),
        t == idle_state(DrainPhase::Finished),
{
}

/// The FIFO drain: reads the sample count, then each sample with a pause
/// after it, and delivers the whole batch or the first failure.
pub struct FifoDrain {
    phase: DrainPhase,
    samples: usize,
    taken: usize,
    batch: Batch,
}

impl View for FifoDrain {
    type V = DrainState;

    closed spec fn view(&self) -> DrainState {
        DrainState {
            phase: self.phase,
            samples: self.samples as nat,
            taken: self.taken as nat,
            data: batch_bytes(self.batch),
        }
    }
}

impl FifoDrain {
    pub open spec fn wf(&self) -> bool {
        let s = self@;
        &&& s.samples <= 31
        &&& s.taken <= s.samples
        &&& s.data.len() == 6 * s.taken
        &&& (s.phase == DrainPhase::AwaitCount || s.phase == DrainPhase::Finished) ==> s
            == idle_state(s.phase)
        &&& s.phase == DrainPhase::AwaitSample ==> s.taken < s.samples
        &&& s.phase == DrainPhase::AwaitDelay ==> s.taken >= 1
    }

    /// Starts a drain; the first request reads the FIFO-control register.
    pub fn new<E>() -> (r: (FifoDrain, Action<E>))
        ensures
            r.0.wf(),
            r.0@ == idle_state(DrainPhase::AwaitCount),
            is_count_read(r.1),
    {
        let d = FifoDrain {
            phase: DrainPhase::AwaitCount,
            samples: 0,
            taken: 0,
            batch: empty_batch(),
        };
        (d, Action::Read { cmd: read_command(Register::FifoCtl, 1), len: 1 })
    }

    fn sample_read<E>() -> (r: Action<E>)
        ensures
            is_sample_read(r),
    {
        Action::Read { cmd: read_command(Register::DataX0, SAMPLE_BYTES), len: SAMPLE_BYTES }
    }

    /// Ends the drain and hands back the batch collected so far.
    fn finish(&mut self) -> (r: Batch)
        ensures
            final(self)@ == idle_state(DrainPhase::Finished),
            batch_bytes(r) == old(self)@.data,
    {
        let mut b = empty_batch();
        core::mem::swap(&mut b, &mut self.batch);
        self.phase = DrainPhase::Finished;
        self.samples = 0;
        self.taken = 0;
        b
    }

    fn fail<E>(&mut self, e: Error<E>) -> (r: Action<E>)
        ensures
            final(self)@ == idle_state(DrainPhase::Finished),
            r == Action::Complete(Err::<Batch, Error<E>>(e)),
    {
        let _ = self.finish();
        Action::Complete(Err(e))
    }

    /// Advances the drain by one reported event.
    pub fn step<E>(&mut self, event: Event<E>) -> (r: Action<E>)
        requires
            old(self).wf(),
        ensures
            final(self).wf(),
            drain_step(old(self)@, event, final(self)@, r),
    {
        let ghost ev = event;
        match event {
            Event::Received(bytes) => {
                if self.phase == DrainPhase::AwaitCount && bytes.len() == 1 {
                    let n = sample_count(bytes[0]);
                    if n == 0 {
                        let b = self.finish();
                        Action::Complete(Ok(b))
                    } else {
                        self.samples = n as usize;
                        self.phase = DrainPhase::AwaitSample;
                        Self::sample_read()
                    }
                } else if self.phase == DrainPhase::AwaitSample && bytes.len() == SAMPLE_BYTES {
                    // Fits: at most 31 samples of 6 bytes in a 192-byte batch.
                    let _ = append_bytes(&mut self.batch, bytes.as_slice());
                    assert(batch_bytes(self.batch) == old(self)@.data + bytes@);
                    self.taken = self.taken + 1;
                    self.phase = DrainPhase::AwaitDelay;
                    Action::DelayUs(SAMPLE_DELAY_US)
                } else {
                    self.fail(Error::InvalidBuffer)
                }
            },
            Event::Waited => {
                if self.phase == DrainPhase::AwaitDelay {
                    if self.taken < self.samples {
                        self.phase = DrainPhase::AwaitSample;
                        Self::sample_read()
                    } else {
                        let b = self.finish();
                        Action::Complete(Ok(b))
                    }
                } else {
                    self.fail(Error::InvalidBuffer)
                }
            },
            Event::Failed(e) => {
                if self.phase != DrainPhase::Finished {
                    self.fail(Error::SpiError(e))
                } else {
                    self.fail(Error::InvalidBuffer)
                }
            },
        }
    }
}

} // verus!
