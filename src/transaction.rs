//! One SPI transaction over the bridge, as a state machine.
//!
//! The machine decides; whoever owns the serial link performs each
//! [`Action`] it hands out and reports back with an [`Event`]. A transaction
//! toggles chip select, runs its operations in order, and toggles chip select
//! again. The first error ends it at once; the closing toggle is then not
//! issued.

use vstd::prelude::*;
use crate::error::SerialTransportError;
use crate::frame::{
    ack_result, check_ack, echo_over, echo_result, encode_frame, frame_bytes, read_echo_into,
    same_outcome, select_command, select_command_bytes, MAX_TRANSFER_LEN, SETTLE_MS,
};

verus! {

/// One SPI operation of a transaction, owning its buffers.
pub enum Operation {
    /// Send these bytes; what comes back is dropped.
    Write(Vec<u8>),
    /// Fill this buffer with what the device sends (zeros go out).
    Read(Vec<u8>),
    /// Send the second buffer and receive into the first; lengths must agree.
    Transfer(Vec<u8>, Vec<u8>),
    /// Send this buffer and overwrite it with what comes back.
    TransferInPlace(Vec<u8>),
    /// Wait; the bridge honours only a minimal pause.
    DelayNs(u32),
}

/// An operation with its buffers seen as sequences.
pub enum OpView {
    Write(Seq<u8>),
    Read(Seq<u8>),
    Transfer(Seq<u8>, Seq<u8>),
    TransferInPlace(Seq<u8>),
    DelayNs(u32),
}

impl View for Operation {
    type V = OpView;

    open spec fn view(&self) -> OpView {
        match self {
            Operation::Write(d) => OpView::Write(d@),
            Operation::Read(b) => OpView::Read(b@),
            Operation::Transfer(r, w) => OpView::Transfer(r@, w@),
            Operation::TransferInPlace(b) => OpView::TransferInPlace(b@),
            Operation::DelayNs(n) => OpView::DelayNs(*n),
        }
    }
}

/// Where a transaction stands.
#[derive(PartialEq, Eq, Structural, Clone, Copy, Debug)]
pub enum Stage {
    /// Not begun.
    Idle,
    /// The opening chip-select toggle is in flight.
    Selecting,
    /// The operation at `next` is in flight.
    Running,
    /// The closing chip-select toggle is in flight.
    Deselecting,
    /// Finished, with success or an error.
    Done,
}

/// What the owner of the link is asked to do next.
pub enum Action {
    /// Write `send`, wait `settle_ms` milliseconds, then read exactly
    /// `receive` bytes and report them.
    Exchange { send: Vec<u8>, settle_ms: u64, receive: usize },
    /// Sleep for `nanos` nanoseconds and report.
    Pause { nanos: u64 },
    /// The transaction is over, with this outcome.
    Finish(Result<(), SerialTransportError>),
}

pub enum ActionView {
    Exchange { send: Seq<u8>, settle_ms: u64, receive: nat },
    Pause { nanos: u64 },
    Finish(Result<(), SerialTransportError>),
}

impl View for Action {
    type V = ActionView;

    open spec fn view(&self) -> ActionView {
        match self {
            Action::Exchange { send, settle_ms, receive } => ActionView::Exchange {
                send: send@,
                settle_ms: *settle_ms,
                receive: *receive as nat,
            },
            Action::Pause { nanos } => ActionView::Pause { nanos: *nanos },
            Action::Finish(r) => ActionView::Finish(*r),
        }
    }
}

/// What the owner of the link reports after performing an action.
pub enum Event {
    /// The exchange completed and these bytes were read.
    Received(Vec<u8>),
    /// The pause is over.
    Paused,
    /// Writing or reading failed.
    LinkFailed(std::io::Error),
}

pub enum EventView {
    Received(Seq<u8>),
    Paused,
    LinkFailed(std::io::Error),
}

impl View for Event {
    type V = EventView;

    open spec fn view(&self) -> EventView {
        match self {
            Event::Received(b) => EventView::Received(b@),
            Event::Paused => EventView::Paused,
            Event::LinkFailed(e) => EventView::LinkFailed(*e),
        }
    }
}

/// A transaction: its operations, the index of the current one, and its stage.
pub struct Transaction {
    ops: Vec<Operation>,
    next: usize,
    stage: Stage,
}

pub struct TransactionView {
    pub ops: Seq<OpView>,
    pub next: int,
    pub stage: Stage,
}

impl View for Transaction {
    type V = TransactionView;

    closed spec fn view(&self) -> TransactionView {
        TransactionView {
            ops: self.ops@.map_values(|o: Operation| o@),
            next: self.next as int,
            stage: self.stage,
        }
    }
}

/// The chip-select exchange: the command out, a four-byte acknowledgement back.
pub open spec fn select_exchange() -> ActionView {
    ActionView::Exchange { send: select_command(), settle_ms: 0, receive: 4 }
}

/// The exchange that carries `data`: its frame out, after the settle delay an
/// echo of the same length back.
pub open spec fn frame_exchange(data: Seq<u8>) -> ActionView {
    ActionView::Exchange {
        send: frame_bytes(data),
        settle_ms: SETTLE_MS,
        receive: 2 * data.len() + 2,
    }
}

/// The bytes that an operation puts on the wire.
pub open spec fn sent_data(op: OpView) -> Seq<u8> {
    match op {
        OpView::Write(d) => d,
        OpView::Read(b) => b,
        OpView::Transfer(r, _) => r,
        OpView::TransferInPlace(b) => b,
        OpView::DelayNs(_) => Seq::empty(),
    }
}

/// A transfer whose read and write buffers differ in length.
pub open spec fn is_length_fault(op: OpView) -> bool {
    match op {
        OpView::Transfer(r, w) => r.len() != w.len(),
        _ => false,
    }
}

/// An operation as it stands just before its exchange: a read buffer is
/// zeroed, and a transfer's write buffer is copied into its read buffer.
pub open spec fn prepare(op: OpView) -> OpView {
    match op {
        OpView::Read(b) => OpView::Read(Seq::new(b.len(), |i: int| 0u8)),
        OpView::Transfer(_, w) => OpView::Transfer(w, w),
        _ => op,
    }
}

/// An operation after its exchange: a write keeps its bytes, the other
/// transfers take `data` as their receiving buffer.
pub open spec fn store(op: OpView, data: Seq<u8>) -> OpView {
    match op {
        OpView::Read(_) => OpView::Read(data),
        OpView::Transfer(_, w) => OpView::Transfer(data, w),
        OpView::TransferInPlace(_) => OpView::TransferInPlace(data),
        _ => op,
    }
}

pub open spec fn finished(ops: Seq<OpView>, next: int, outcome: Result<(), SerialTransportError>) -> (
    TransactionView,
    ActionView,
) {
    (TransactionView { ops, next, stage: Stage::Done }, ActionView::Finish(outcome))
}

/// Runs the operations from index `k` on until one needs the link or fails:
/// operations with nothing to send complete at once, with no I/O; after the
/// last one comes the closing chip-select toggle.
pub open spec fn launch(ops: Seq<OpView>, k: int) -> (TransactionView, ActionView)
    decreases ops.len() - k,
{
    if k < 0 || k >= ops.len() {
        (TransactionView { ops, next: k, stage: Stage::Deselecting }, select_exchange())
    } else if ops[k] is DelayNs {
        (TransactionView { ops, next: k, stage: Stage::Running }, ActionView::Pause { nanos: 1 })
    } else if is_length_fault(ops[k]) {
        finished(ops, k, Err(SerialTransportError::InvalidBufferLength))
    } else {
        let p = prepare(ops[k]);
        let ops2 = ops.update(k, p);
        let d = sent_data(p);
        if d.len() == 0 {
            launch(ops2, k + 1)
        } else if d.len() > MAX_TRANSFER_LEN {
            finished(ops2, k, Err(SerialTransportError::DataTooLong))
        } else {
            (TransactionView { ops: ops2, next: k, stage: Stage::Running }, frame_exchange(d))
        }
    }
}

/// The length of the reply that a transaction waits for, if it waits for one.
pub open spec fn awaited_reply(t: TransactionView) -> Option<nat> {
    match t.stage {
        Stage::Selecting => Some(4),
        Stage::Deselecting => Some(4),
        Stage::Running => if t.ops[t.next] is DelayNs {
            None
        } else {
            Some(2 * sent_data(t.ops[t.next]).len() + 2)
        },
        _ => None,
    }
}

/// Whether `ev` answers the action that `t` handed out.
pub open spec fn event_fits(t: TransactionView, ev: EventView) -> bool {
    match ev {
        EventView::LinkFailed(_) => true,
        EventView::Paused => t.stage == Stage::Running && awaited_reply(t) is None,
        EventView::Received(r) => awaited_reply(t) == Some(r.len()),
    }
}

/// The next state and action of a transaction after an event: a link
/// failure ends it with `Io`; a bad acknowledgement or echo ends it with that
/// error; otherwise it moves on to the next operation, or finishes with
/// success after the closing acknowledgement. An echo is decoded into the
/// receiving buffer in place, so a decoding error leaves the bytes decoded
/// before the bad chunk there.
pub open spec fn step(t: TransactionView, ev: EventView) -> (TransactionView, ActionView) {
    match ev {
        EventView::LinkFailed(e) => finished(t.ops, t.next, Err(SerialTransportError::Io(e))),
        EventView::Paused => launch(t.ops, t.next + 1),
        EventView::Received(reply) => match t.stage {
            Stage::Selecting => match ack_result(reply) {
                Ok(_) => launch(t.ops, 0),
                Err(e) => finished(t.ops, t.next, Err(e)),
            },
            Stage::Deselecting => finished(t.ops, t.next, ack_result(reply)),
            _ => {
                let op = t.ops[t.next];
                let ops2 = t.ops.update(t.next, store(op, echo_over(reply, sent_data(op))));
                match echo_result(reply, sent_data(op).len()) {
                    Ok(_) => launch(ops2, t.next + 1),
                    Err(e) => finished(ops2, t.next, Err(e)),
                }
            },
        },
    }
}

impl Transaction {
    /// Whether the state is one that the machine can be in.
    pub closed spec fn wf(&self) -> bool {
        &&& self.next <= self.ops.len()
        &&& self.stage == Stage::Idle ==> self.next == 0
        &&& self.stage == Stage::Selecting ==> self.next == 0
        &&& self.stage == Stage::Running ==> {
            &&& self.next < self.ops.len()
            &&& (self.ops@[self.next as int]@ is DelayNs || (1 <= sent_data(
                self.ops@[self.next as int]@,
            ).len() <= MAX_TRANSFER_LEN))
        }
    }

    /// Whether the machine waits for an event.
    pub open spec fn is_waiting(&self) -> bool {
        self@.stage == Stage::Selecting || self@.stage == Stage::Running || self@.stage
            == Stage::Deselecting
    }

    /// A transaction over `ops`, not yet begun.
    pub fn new(ops: Vec<Operation>) -> (r: Transaction)
        ensures
            r.wf(),
            r@.ops == ops@.map_values(|o: Operation| o@),
            r@.next == 0,
            r@.stage == Stage::Idle,
    {
        Transaction { ops, next: 0, stage: Stage::Idle }
    }

    /// Where the transaction stands.
    pub fn stage(&self) -> (r: Stage)
        ensures
            r == self@.stage,
    {
        self.stage
    }

    /// The operations, with what the device sent back in their buffers.
    pub fn into_operations(self) -> (r: Vec<Operation>)
        ensures
            r@.map_values(|o: Operation| o@) == self@.ops,
    {
        self.ops
    }

    /// Begins the transaction: the first action is the opening chip-select toggle.
    pub fn begin(&mut self) -> (a: Action)
        requires
            old(self).wf(),
            old(self)@.stage == Stage::Idle,
        ensures
            final(self).wf(),
            final(self)@ == (TransactionView { stage: Stage::Selecting, ..old(self)@ }),
            a@ == select_exchange(),
    {
        self.stage = Stage::Selecting;
        Action::Exchange { send: select_command_bytes(), settle_ms: 0, receive: 4 }
    }

    /// Takes the event that answers the last action, and hands out the next.
    pub fn advance(&mut self, event: Event) -> (a: Action)
        requires
            old(self).wf(),
            old(self).is_waiting(),
            event_fits(old(self)@, event@),
        ensures
            final(self).wf(),
            (final(self)@, a@) == step(old(self)@, event@),
    {
        match event {
            Event::LinkFailed(e) => {
                self.stage = Stage::Done;
                Action::Finish(Err(SerialTransportError::Io(e)))
            },
            Event::Paused => {
                self.next = self.next + 1;
                self.launch()
            },
            Event::Received(reply) => {
                match self.stage {
                    Stage::Selecting => match check_ack(reply.as_slice()) {
                        Ok(()) => self.launch(),
                        Err(e) => {
                            self.stage = Stage::Done;
                            Action::Finish(Err(e))
                        },
                    },
                    Stage::Deselecting => {
                        self.stage = Stage::Done;
                        Action::Finish(check_ack(reply.as_slice()))
                    },
                    _ => self.complete_transfer(reply),
                }
            },
        }
    }

    fn complete_transfer(&mut self, reply: Vec<u8>) -> (a: Action)
        requires
            old(self).wf(),
            old(self)@.stage == Stage::Running,
            awaited_reply(old(self)@) == Some(reply@.len()),
        ensures
            final(self).wf(),
            (final(self)@, a@) == step(old(self)@, EventView::Received(reply@)),
    {
        let i = self.next;
        let ghost ops0 = self.ops@;
        let mut op = Operation::DelayNs(0);
        self.ops.set_and_swap(i, &mut op);
        assert(op == ops0[i as int]);
        let (stored, outcome) = echo_into_op(op, reply.as_slice());
        self.ops.set(i, stored);
        assert(self@.ops =~= old(self)@.ops.update(i as int, stored@));
        match outcome {
            Ok(()) => {
                self.next = i + 1;
                self.launch()
            },
            Err(e) => {
                self.stage = Stage::Done;
                Action::Finish(Err(e))
            },
        }
    }

    /// Starts the operation at `next`, running on past those that need no I/O.
    fn launch(&mut self) -> (a: Action)
        requires
            old(self).next <= old(self).ops@.len(),
        ensures
            final(self).wf(),
            (final(self)@, a@) == launch(old(self)@.ops, old(self).next as int),
    {
        let ghost goal = launch(self@.ops, self.next as int);
        loop
            invariant
                self.next <= self.ops@.len(),
                launch(self@.ops, self.next as int) == goal,
                goal == launch(old(self)@.ops, old(self).next as int),
            decreases self.ops@.len() - self.next,
        {
            if self.next == self.ops.len() {
                self.stage = Stage::Deselecting;
                return Action::Exchange { send: select_command_bytes(), settle_ms: 0, receive: 4 };
            }
            let i = self.next;
            let ghost ops0 = self.ops@;
            let ghost v0 = self@.ops;
            let mut op = Operation::DelayNs(0);
            self.ops.set_and_swap(i, &mut op);
            assert(op == ops0[i as int]);
            assert(op@ == v0[i as int]);
            if let Operation::DelayNs(_) = op {
                self.ops.set(i, op);
                assert(self.ops@ =~= ops0);
                self.stage = Stage::Running;
                return Action::Pause { nanos: 1 };
            }
            if length_fault(&op) {
                self.ops.set(i, op);
                assert(self.ops@ =~= ops0);
                self.stage = Stage::Done;
                return Action::Finish(Err(SerialTransportError::InvalidBufferLength));
            }
            let p = prepare_op(op);
            let n = data_len(&p);
            if n == 0 {
                self.ops.set(i, p);
                assert(self@.ops =~= ops0.map_values(|o: Operation| o@).update(i as int, p@));
                self.next = i + 1;
            } else if n > MAX_TRANSFER_LEN {
                self.ops.set(i, p);
                assert(self@.ops =~= ops0.map_values(|o: Operation| o@).update(i as int, p@));
                self.stage = Stage::Done;
                return Action::Finish(Err(SerialTransportError::DataTooLong));
            } else {
                let send = frame_of(&p);
                self.ops.set(i, p);
                assert(self@.ops =~= ops0.map_values(|o: Operation| o@).update(i as int, p@));
                self.stage = Stage::Running;
                return Action::Exchange { send, settle_ms: SETTLE_MS, receive: 2 * n + 2 };
            }
        }
    }
}

fn length_fault(op: &Operation) -> (r: bool)
    ensures
        r == is_length_fault(op@),
{
    match op {
        Operation::Transfer(r, w) => r.len() != w.len(),
        _ => false,
    }
}

fn data_len(op: &Operation) -> (r: usize)
    ensures
        r == sent_data(op@).len(),
{
    match op {
        Operation::Write(d) => d.len(),
        Operation::Read(b) => b.len(),
        Operation::Transfer(r, _) => r.len(),
        Operation::TransferInPlace(b) => b.len(),
        Operation::DelayNs(_) => 0,
    }
}

fn frame_of(op: &Operation) -> (r: Vec<u8>)
    requires
        sent_data(op@).len() <= MAX_TRANSFER_LEN,
    ensures
        !(op@ is DelayNs) ==> r@ == frame_bytes(sent_data(op@)),
{
    match op {
        Operation::Write(d) => encode_frame(d.as_slice()),
        Operation::Read(b) => encode_frame(b.as_slice()),
        Operation::Transfer(r, _) => encode_frame(r.as_slice()),
        Operation::TransferInPlace(b) => encode_frame(b.as_slice()),
        Operation::DelayNs(_) => Vec::new(),
    }
}

fn prepare_op(op: Operation) -> (r: Operation)
    ensures
        r@ == prepare(op@),
{
    match op {
        Operation::Read(b) => {
            let mut z: Vec<u8> = Vec::with_capacity(b.len());
            while z.len() < b.len()
                invariant
                    z@.len() <= b@.len(),
                    forall|j: int| 0 <= j < z@.len() ==> z@[j] == 0u8,
                decreases b@.len() - z@.len(),
            {
                z.push(0u8);
            }
            assert(z@ =~= Seq::new(b@.len(), |i: int| 0u8));
            Operation::Read(z)
        },
        Operation::Transfer(_, w) => {
            let copy = vstd::slice::slice_to_vec(w.as_slice());
            Operation::Transfer(copy, w)
        },
        other => other,
    }
}

/// Reads the echo into the operation's receiving buffer; a write reads it
/// into a scratch copy of its data, which is then dropped.
fn echo_into_op(op: Operation, reply: &[u8]) -> (r: (Operation, Result<(), SerialTransportError>))
    requires
        !(op@ is DelayNs),
        2 * sent_data(op@).len() <= reply@.len(),
    ensures
        r.0@ == store(op@, echo_over(reply@, sent_data(op@))),
        same_outcome(r.1, echo_result(reply@, sent_data(op@).len())),
{
    match op {
        Operation::Write(d) => {
            let mut scratch = vstd::slice::slice_to_vec(d.as_slice());
            let outcome = read_echo_into(reply, &mut scratch);
            (Operation::Write(d), outcome)
        },
        Operation::Read(b) => {
            let mut b = b;
            let outcome = read_echo_into(reply, &mut b);
            (Operation::Read(b), outcome)
        },
        Operation::Transfer(rd, w) => {
            let mut rd = rd;
            let outcome = read_echo_into(reply, &mut rd);
            (Operation::Transfer(rd, w), outcome)
        },
        Operation::TransferInPlace(b) => {
            let mut b = b;
            let outcome = read_echo_into(reply, &mut b);
            (Operation::TransferInPlace(b), outcome)
        },
        Operation::DelayNs(n) => (Operation::DelayNs(n), Ok(())),
    }
}

/// A transfer of more than 2048 bytes never reaches the link: the
/// transaction ends with `DataTooLong` instead of an exchange.
pub proof fn lemma_oversized_transfer_rejected(ops: Seq<OpView>, k: int)
    requires
        0 <= k < ops.len(),
        !(ops[k] is DelayNs),
        !is_length_fault(ops[k]),
        sent_data(prepare(ops[k])).len() > MAX_TRANSFER_LEN,
    ensures
        launch(ops, k).1 == ActionView::Finish(Err(SerialTransportError::DataTooLong)),
        launch(ops, k).0.stage == Stage::Done,
{
}

/// A transfer with nothing to send needs no I/O: the transaction goes
/// straight on to the next operation.
pub proof fn lemma_empty_transfer_skipped(ops: Seq<OpView>, k: int)
    requires
        0 <= k < ops.len(),
        !(ops[k] is DelayNs),
        !is_length_fault(ops[k]),
        sent_data(prepare(ops[k])).len() == 0,
    ensures
        launch(ops, k) == launch(ops.update(k, prepare(ops[k])), k + 1),
{
}

/// A transfer whose buffers differ in length never reaches the link: the
/// transaction ends with `InvalidBufferLength`.
pub proof fn lemma_length_mismatch_rejected(ops: Seq<OpView>, k: int)
    requires
        0 <= k < ops.len(),
        is_length_fault(ops[k]),
    ensures
        launch(ops, k) == finished(ops, k, Err(SerialTransportError::InvalidBufferLength)),
{
}

} // verus!
