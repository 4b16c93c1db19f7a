//! The session coordinator: the decisions of the two per-connection
//! loops, and the guarantee of a single teardown.
//!
//! Each connection runs a reader loop, which drains inbound wire
//! messages and applies the decoded inputs to the device, and a writer
//! loop, which fetches driver-originated events and emits their wire
//! form. The two loops stop independently — on end of stream, on a
//! transport failure, on a decode failure, or on a driver error — and
//! record it in one pair of stop flags. The boundary layer performs the
//! awaiting and the I/O; every decision is taken here, by the
//! transition functions below, so that the stop and teardown rules are
//! proved once and hold for every schedule of the two loops.

use vstd::prelude::*;
use crate::codec::{Input, InputData, Output, WireOutput};
use crate::codec::{decode_input, encode_output, spec_decode_input, spec_encode_output};
use crate::device::DeviceIoError;

verus! {

/// The phase a session is in, derived from its two stop flags. The
/// reader and the writer may close in either order; the session is
/// terminated only once both have closed.
#[derive(Clone, Copy, PartialEq, Eq, Structural, Debug)]
pub enum SessionPhase {
    Active,
    ReaderClosing,
    WriterClosing,
    Terminated,
}

/// What the reader loop's await produced.
#[derive(Clone, Copy, PartialEq, Eq, Structural, Debug)]
pub enum ReaderInbound {
    /// The next inbound wire message.
    Message(InputData),
    /// The client ended the stream; the expected way a session ends.
    Closed,
    /// The transport failed mid-stream.
    Failed,
}

/// What the reader loop does next.
#[derive(Clone, Copy, PartialEq, Eq, Structural, Debug)]
pub enum ReaderAction {
    /// Apply this decoded input to the device, then report the result
    /// through [`Coordinator::on_apply_result`].
    Apply(Input),
    /// Exit the reader loop.
    Stop,
}

/// What the writer loop does with one fetched driver event.
#[derive(Clone, Copy, PartialEq, Eq, Structural, Debug)]
pub enum WriterOutcome {
    /// Place this message on the outbound stream.
    Emit(WireOutput),
    /// The event produces no wire message; keep looping.
    Silent,
    /// Exit the writer loop.
    Stop,
}

/// The coordinator state of one session: the two independent stop
/// flags, and whether the device has already been torn down.
#[derive(Clone, Copy, PartialEq, Eq, Structural, Debug)]
pub struct Coordinator {
    /// The reader loop has exited; no further input is applied.
    pub reader_stopped: bool,
    /// The writer loop has exited; no further output is emitted.
    pub writer_stopped: bool,
    /// The device has been torn down.
    pub released: bool,
}

/// A coordinator is well formed when the device is torn down only
/// after both loops have stopped.
pub open spec fn coordinator_wf(s: Coordinator) -> bool {
    s.released ==> s.reader_stopped && s.writer_stopped
}

/// The phase the two stop flags denote.
pub open spec fn spec_phase(s: Coordinator) -> SessionPhase {
    if !s.reader_stopped && !s.writer_stopped {
        SessionPhase::Active
    } else if s.reader_stopped && !s.writer_stopped {
        SessionPhase::ReaderClosing
    } else if !s.reader_stopped && s.writer_stopped {
        SessionPhase::WriterClosing
    } else {
        SessionPhase::Terminated
    }
}

/// One reader iteration: a message decodes to an input to apply; a
/// decode failure is fatal to the reader; end of stream and transport
/// failure stop it too. A stopped reader takes no further action.
pub open spec fn spec_reader_step(s: Coordinator, inbound: ReaderInbound) -> (Coordinator, ReaderAction) {
    if s.reader_stopped {
        (s, ReaderAction::Stop)
    } else {
        match inbound {
            ReaderInbound::Message(data) => match spec_decode_input(data) {
                Ok(input) => (s, ReaderAction::Apply(input)),
                Err(_) => (Coordinator { reader_stopped: true, ..s }, ReaderAction::Stop),
            },
            ReaderInbound::Closed => (
                Coordinator { reader_stopped: true, ..s },
                ReaderAction::Stop,
            ),
            ReaderInbound::Failed => (
                Coordinator { reader_stopped: true, ..s },
                ReaderAction::Stop,
            ),
        }
    }
}

/// Recording whether the device accepted an applied input: a driver
/// error stops the reader.
pub open spec fn spec_apply_result(s: Coordinator, accepted: bool) -> Coordinator {
    if accepted {
        s
    } else {
        Coordinator { reader_stopped: true, ..s }
    }
}

/// One writer poll: the flag check that precedes every fetch. When the
/// reader has stopped, the writer fetches nothing further and stops
/// within this same iteration.
pub open spec fn spec_writer_poll(s: Coordinator) -> (Coordinator, bool) {
    if s.writer_stopped {
        (s, false)
    } else if s.reader_stopped {
        (Coordinator { writer_stopped: true, ..s }, false)
    } else {
        (s, true)
    }
}

/// One writer iteration over a fetched driver event: a driver error
/// stops the writer; an event is encoded and, if non-empty, emitted in
/// fetch order. A stopped writer emits nothing further.
pub open spec fn spec_writer_handle(
    s: Coordinator,
    fetched: Result<Output, DeviceIoError>,
) -> (Coordinator, WriterOutcome) {
    if s.writer_stopped {
        (s, WriterOutcome::Stop)
    } else {
        match fetched {
            Err(_) => (Coordinator { writer_stopped: true, ..s }, WriterOutcome::Stop),
            Ok(output) => match spec_encode_output(output) {
                Some(wire) => (s, WriterOutcome::Emit(wire)),
                None => (s, WriterOutcome::Silent),
            },
        }
    }
}

/// The teardown decision: the device is released exactly when both
/// loops have stopped and it has not been released before.
pub open spec fn spec_try_release(s: Coordinator) -> (Coordinator, bool) {
    if s.reader_stopped && s.writer_stopped && !s.released {
        (Coordinator { released: true, ..s }, true)
    } else {
        (s, false)
    }
}

impl Coordinator {
    /// The coordinator of a session that just started: both loops
    /// running, device not yet torn down.
    pub fn new() -> (s: Coordinator)
        ensures
            s == (Coordinator { reader_stopped: false, writer_stopped: false, released: false }),
    {
        Coordinator { reader_stopped: false, writer_stopped: false, released: false }
    }

    /// The phase the session is in.
    pub fn phase(&self) -> (p: SessionPhase)
        ensures
            p == spec_phase(*self),
    {
        if !self.reader_stopped && !self.writer_stopped {
            SessionPhase::Active
        } else if self.reader_stopped && !self.writer_stopped {
            SessionPhase::ReaderClosing
        } else if !self.reader_stopped && self.writer_stopped {
            SessionPhase::WriterClosing
        } else {
            SessionPhase::Terminated
        }
    }

    /// Take one reader iteration's decision; see [`spec_reader_step`].
    pub fn reader_step(&mut self, inbound: ReaderInbound) -> (action: ReaderAction)
        ensures
            (*final(self), action) == spec_reader_step(*old(self), inbound),
            coordinator_wf(*old(self)) ==> coordinator_wf(*final(self)),
    {
        if self.reader_stopped {
            return ReaderAction::Stop;
        }
        match inbound {
            ReaderInbound::Message(data) => match decode_input(&data) {
                Ok(input) => ReaderAction::Apply(input),
                Err(_) => {
                    self.reader_stopped = true;
                    ReaderAction::Stop
                },
            },
            ReaderInbound::Closed => {
                self.reader_stopped = true;
                ReaderAction::Stop
            },
            ReaderInbound::Failed => {
                self.reader_stopped = true;
                ReaderAction::Stop
            },
        }
    }

    /// Record whether the device accepted an applied input; a refusal
    /// stops the reader. Returns whether the reader keeps running.
    pub fn on_apply_result(&mut self, accepted: bool) -> (cont: bool)
        ensures
            *final(self) == spec_apply_result(*old(self), accepted),
            cont == accepted,
            coordinator_wf(*old(self)) ==> coordinator_wf(*final(self)),
    {
        if !accepted {
            self.reader_stopped = true;
        }
        accepted
    }

    /// Decide whether the writer fetches the next driver event; see
    /// [`spec_writer_poll`].
    pub fn writer_poll(&mut self) -> (fetch: bool)
        ensures
            (*final(self), fetch) == spec_writer_poll(*old(self)),
            coordinator_wf(*old(self)) ==> coordinator_wf(*final(self)),
    {
        if self.writer_stopped {
            false
        } else if self.reader_stopped {
            self.writer_stopped = true;
            false
        } else {
            true
        }
    }

    /// Take one writer iteration's decision over a fetched driver
    /// event; see [`spec_writer_handle`].
    pub fn writer_handle(&mut self, fetched: Result<Output, DeviceIoError>) -> (outcome:
        WriterOutcome)
        ensures
            (*final(self), outcome) == spec_writer_handle(*old(self), fetched),
            coordinator_wf(*old(self)) ==> coordinator_wf(*final(self)),
    {
        if self.writer_stopped {
            return WriterOutcome::Stop;
        }
        match fetched {
            Err(_) => {
                self.writer_stopped = true;
                WriterOutcome::Stop
            },
            Ok(output) => match encode_output(output) {
                Some(wire) => WriterOutcome::Emit(wire),
                None => WriterOutcome::Silent,
            },
        }
    }

    /// Decide the teardown: true exactly when both loops have stopped
    /// and the device has not been torn down before. The caller
    /// performs the actual teardown only on true.
    pub fn try_release(&mut self) -> (release_now: bool)
        ensures
            (*final(self), release_now) == spec_try_release(*old(self)),
            coordinator_wf(*old(self)) ==> coordinator_wf(*final(self)),
    {
        if self.reader_stopped && self.writer_stopped && !self.released {
            self.released = true;
            true
        } else {
            false
        }
    }
}

/// Once the reader has stopped, no reader step ever applies an input
/// again, whatever arrives.
pub proof fn lemma_no_apply_after_reader_stop(s: Coordinator, inbound: ReaderInbound)
    ensures
        s.reader_stopped ==> spec_reader_step(s, inbound).1 is Stop,
{
}

/// Once the writer has stopped, no writer iteration ever emits a wire
/// message again, whatever was fetched.
pub proof fn lemma_no_emit_after_writer_stop(s: Coordinator, fetched: Result<Output, DeviceIoError>)
    ensures
        s.writer_stopped ==> spec_writer_handle(s, fetched).1 is Stop,
{
}

/// Once the reader has stopped, the writer's very next poll fetches no
/// further event and ends the writer loop.
pub proof fn lemma_writer_observes_reader_stop(s: Coordinator)
    ensures
        s.reader_stopped ==> !spec_writer_poll(s).1 && spec_writer_poll(s).0.writer_stopped,
{
}

/// The inputs a message sequence is applied as: one reader step per
/// message, collecting each applied input in receipt order, stopping
/// at the first step on which the reader exits.
pub open spec fn spec_reader_run(s: Coordinator, msgs: Seq<InputData>) -> (Coordinator, Seq<Input>)
    decreases msgs.len(),
{
    if msgs.len() == 0 {
        (s, Seq::empty())
    } else {
        let (s1, action) = spec_reader_step(s, ReaderInbound::Message(msgs[0]));
        match action {
            ReaderAction::Apply(input) => {
                let (s2, rest) = spec_reader_run(s1, msgs.subrange(1, msgs.len() as int));
                (s2, seq![input] + rest)
            },
            ReaderAction::Stop => (s1, Seq::empty()),
        }
    }
}

/// A running reader applies a sequence of well-formed messages as
/// exactly their decoded inputs, one per message, in receipt order.
pub proof fn lemma_reader_applies_in_order(s: Coordinator, msgs: Seq<InputData>)
    requires
        !s.reader_stopped,
        forall|i: int| 0 <= i < msgs.len() ==> #[trigger] spec_decode_input(msgs[i]) is Ok,
    ensures
        spec_reader_run(s, msgs).1.len() == msgs.len(),
        forall|i: int|
            0 <= i < msgs.len() ==> #[trigger] spec_reader_run(s, msgs).1[i] == spec_decode_input(
                msgs[i],
            )->Ok_0,
    decreases msgs.len(),
{
    if msgs.len() > 0 {
        assert(spec_decode_input(msgs[0]) is Ok);
        let rest_msgs = msgs.subrange(1, msgs.len() as int);
        assert(forall|i: int| 0 <= i < rest_msgs.len() ==> #[trigger] rest_msgs[i] == msgs[i + 1]);
        lemma_reader_applies_in_order(s, rest_msgs);
        let applied = spec_reader_run(s, msgs).1;
        let rest_applied = spec_reader_run(s, rest_msgs).1;
        assert(forall|i: int| 1 <= i < msgs.len() ==> #[trigger] applied[i] == rest_applied[i - 1]);
    }
}

/// One coordinator step of either loop, or the teardown decision.
#[derive(Clone, Copy, Debug)]
pub enum SessionOp {
    Inbound(ReaderInbound),
    ApplyResult(bool),
    WriterPoll,
    Fetched(Result<Output, DeviceIoError>),
    Release,
}

/// The coordinator state after one step.
pub open spec fn spec_session_op(s: Coordinator, op: SessionOp) -> Coordinator {
    match op {
        SessionOp::Inbound(inbound) => spec_reader_step(s, inbound).0,
        SessionOp::ApplyResult(accepted) => spec_apply_result(s, accepted),
        SessionOp::WriterPoll => spec_writer_poll(s).0,
        SessionOp::Fetched(fetched) => spec_writer_handle(s, fetched).0,
        SessionOp::Release => spec_try_release(s).0,
    }
}

/// Whether this step performs the device teardown.
pub open spec fn spec_op_releases(s: Coordinator, op: SessionOp) -> bool {
    op is Release && spec_try_release(s).1
}

/// How many of these steps, taken from this state in this order,
/// perform the device teardown.
pub open spec fn spec_release_count(s: Coordinator, ops: Seq<SessionOp>) -> nat
    decreases ops.len(),
{
    if ops.len() == 0 {
        0
    } else {
        (if spec_op_releases(s, ops[0]) {
            1nat
        } else {
            0nat
        }) + spec_release_count(spec_session_op(s, ops[0]), ops.subrange(1, ops.len() as int))
    }
}

/// No step ever reverts a stop flag or the released mark: a stopped
/// loop stays stopped, a torn-down device stays torn down.
pub proof fn lemma_flags_monotone(s: Coordinator, op: SessionOp)
    ensures
        s.reader_stopped ==> spec_session_op(s, op).reader_stopped,
        s.writer_stopped ==> spec_session_op(s, op).writer_stopped,
        s.released ==> spec_session_op(s, op).released,
{
}

/// After the teardown has happened, no sequence of steps performs it
/// again.
pub proof fn lemma_no_release_after_released(s: Coordinator, ops: Seq<SessionOp>)
    requires
        s.released,
    ensures
        spec_release_count(s, ops) == 0,
    decreases ops.len(),
{
    if ops.len() > 0 {
        lemma_flags_monotone(s, ops[0]);
        lemma_no_release_after_released(spec_session_op(s, ops[0]), ops.subrange(1, ops.len() as int));
    }
}

/// The single-teardown guarantee: from a session whose device is not
/// yet torn down, any sequence of coordinator steps — in whatever
/// order the two loops and the teardown check interleave — performs
/// the teardown at most once.
pub proof fn lemma_release_at_most_once(s: Coordinator, ops: Seq<SessionOp>)
    requires
        !s.released,
    ensures
        spec_release_count(s, ops) <= 1,
    decreases ops.len(),
{
    if ops.len() > 0 {
        let s2 = spec_session_op(s, ops[0]);
        let rest = ops.subrange(1, ops.len() as int);
        if spec_op_releases(s, ops[0]) {
            lemma_no_release_after_released(s2, rest);
        } else {
            assert(!s2.released);
            lemma_release_at_most_once(s2, rest);
        }
    }
}

} // verus!
