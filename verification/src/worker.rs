//! Per-connection worker state machine.
//!
//! A worker owns one outbound connection and drives a send/receive loop on
//! it until it fails or the shared stop signal is observed. The blocking
//! operations themselves (connect, write, read, polling the stop flag) are
//! performed by the caller; this module decides, for every outcome handed
//! back, what the worker does next and how its counters move. That keeps the
//! whole decision logic verified while the sockets stay outside.

use vstd::prelude::*;
use crate::codec::{
    is_server_type, le16, capped_payload_len, ChatMessage, CLIENT_CHAT, MESSAGE_DATA_SIZE,
    MESSAGE_TOTAL_SIZE,
};

verus! {

/// Where a worker stands in its loop.
#[derive(Clone, Copy, Debug, PartialEq, Eq, Structural)]
pub enum Phase {
    /// Establishing the outbound connection.
    Connecting,
    /// About to check the stop flag before sending.
    PollBeforeSend,
    /// About to write one encoded frame.
    Sending,
    /// About to re-check the stop flag after a completed send.
    PollAfterSend,
    /// About to read from the connection.
    Reading,
    /// Loop finished; the accumulated counts are final.
    Done,
}

/// What the caller should do next for a worker in a given phase.
#[derive(Clone, Copy, Debug, PartialEq, Eq, Structural)]
pub enum Action {
    /// Establish the connection and report whether it succeeded.
    Connect,
    /// Read the stop flag and report its value.
    PollStop,
    /// Write one full frame and report whether the write succeeded.
    WriteFrame,
    /// Read from the connection and report what came back.
    ReadFrame,
    /// The worker is done: hand its result to the aggregator.
    Report,
}

/// The outcome of one read from the connection.
#[derive(Debug)]
pub enum ReadEvent {
    /// The read itself failed (error or timeout).
    Failed,
    /// The bytes that were read; empty means the peer closed the connection.
    Data(Vec<u8>),
}

/// The outcome of the blocking operation a worker asked for.
#[derive(Debug)]
pub enum WorkerEvent {
    /// Whether the connection was established.
    Connected(bool),
    /// The value of the stop flag at a poll point.
    StopFlag(bool),
    /// Whether the full frame was written.
    WriteDone(bool),
    /// What a read returned.
    ReadDone(ReadEvent),
}

/// One worker's counters and position in its loop.
#[derive(Clone, Copy, Debug, PartialEq, Eq, Structural)]
pub struct WorkerState {
    pub phase: Phase,
    pub sent: u64,
    pub received: u64,
}

/// The counts a worker hands to the aggregator when it finishes.
#[derive(Clone, Copy, Debug, PartialEq, Eq, Structural)]
pub struct WorkerResult {
    pub sent: u64,
    pub received: u64,
}

/// A counter increment that stays put at the top of the counter's range
/// instead of wrapping.
pub open spec fn inc64(x: u64) -> u64 {
    if x == u64::MAX {
        x
    } else {
        (x + 1) as u64
    }
}

/// Whether a completed read makes the worker count a response: the read must
/// have returned a full frame and the frame's type byte must be one of the
/// server-originated tags.
pub open spec fn counts_as_response(bytes: Seq<u8>) -> bool {
    bytes.len() >= MESSAGE_TOTAL_SIZE && is_server_type(bytes[0])
}

/// The phase and counters after one event, for every phase and every event.
/// An event that does not answer the phase's own action leaves the state
/// unchanged.
pub open spec fn step_spec(s: WorkerState, ev: WorkerEvent) -> WorkerState {
    match s.phase {
        Phase::Connecting => match ev {
            WorkerEvent::Connected(ok) => if ok {
                WorkerState { phase: Phase::PollBeforeSend, sent: s.sent, received: s.received }
            } else {
                WorkerState { phase: Phase::Done, sent: s.sent, received: s.received }
            },
            _ => s,
        },
        Phase::PollBeforeSend => match ev {
            WorkerEvent::StopFlag(stop) => if stop {
                WorkerState { phase: Phase::Done, sent: s.sent, received: s.received }
            } else {
                WorkerState { phase: Phase::Sending, sent: s.sent, received: s.received }
            },
            _ => s,
        },
        Phase::Sending => match ev {
            WorkerEvent::WriteDone(ok) => if ok {
                WorkerState { phase: Phase::PollAfterSend, sent: inc64(s.sent), received: s.received }
            } else {
                WorkerState { phase: Phase::Done, sent: s.sent, received: s.received }
            },
            _ => s,
        },
        Phase::PollAfterSend => match ev {
            WorkerEvent::StopFlag(stop) => if stop {
                WorkerState { phase: Phase::Done, sent: s.sent, received: s.received }
            } else {
                WorkerState { phase: Phase::Reading, sent: s.sent, received: s.received }
            },
            _ => s,
        },
        Phase::Reading => match ev {
            WorkerEvent::ReadDone(outcome) => match outcome {
                ReadEvent::Failed => WorkerState {
                    phase: Phase::Done,
                    sent: s.sent,
                    received: s.received,
                },
                ReadEvent::Data(bytes) => if bytes@.len() == 0 {
                    WorkerState { phase: Phase::Done, sent: s.sent, received: s.received }
                } else if counts_as_response(bytes@) {
                    WorkerState {
                        phase: Phase::PollBeforeSend,
                        sent: s.sent,
                        received: inc64(s.received),
                    }
                } else {
                    WorkerState { phase: Phase::PollBeforeSend, sent: s.sent, received: s.received }
                },
            },
            _ => s,
        },
        Phase::Done => s,
    }
}

/// The action a worker in phase `p` asks of its caller.
pub open spec fn action_of(p: Phase) -> Action {
    match p {
        Phase::Connecting => Action::Connect,
        Phase::PollBeforeSend => Action::PollStop,
        Phase::Sending => Action::WriteFrame,
        Phase::PollAfterSend => Action::PollStop,
        Phase::Reading => Action::ReadFrame,
        Phase::Done => Action::Report,
    }
}

/// The state after a whole sequence of events, first event first.
pub open spec fn run_trace(s: WorkerState, evs: Seq<WorkerEvent>) -> WorkerState
    decreases evs.len(),
{
    if evs.len() == 0 {
        s
    } else {
        run_trace(step_spec(s, evs[0]), evs.drop_first())
    }
}

impl WorkerState {
    /// A fresh worker: not yet connected, nothing counted.
    pub fn new() -> (s: Self)
        ensures
            s == (WorkerState { phase: Phase::Connecting, sent: 0, received: 0 }),
    {
        WorkerState { phase: Phase::Connecting, sent: 0, received: 0 }
    }

    /// What the caller should do next for this worker.
    pub fn next_action(&self) -> (a: Action)
        ensures
            a == action_of(self.phase),
    {
        match self.phase {
            Phase::Connecting => Action::Connect,
            Phase::PollBeforeSend => Action::PollStop,
            Phase::Sending => Action::WriteFrame,
            Phase::PollAfterSend => Action::PollStop,
            Phase::Reading => Action::ReadFrame,
            Phase::Done => Action::Report,
        }
    }

    /// Advances the worker by one observed event.
    ///
    /// A successful write moves the sent counter, a full frame bearing a
    /// server-originated tag moves the received counter, a stop observation
    /// or any failure ends the loop, a short read abandons the iteration and
    /// loops, and a finished worker never changes again.
    pub fn step(&mut self, ev: &WorkerEvent)
        ensures
            *final(self) == step_spec(*old(self), *ev),
    {
        match self.phase {
            Phase::Connecting => {
                if let WorkerEvent::Connected(ok) = ev {
                    self.phase = if *ok {
                        Phase::PollBeforeSend
                    } else {
                        Phase::Done
                    };
                }
            },
            Phase::PollBeforeSend => {
                if let WorkerEvent::StopFlag(stop) = ev {
                    self.phase = if *stop {
                        Phase::Done
                    } else {
                        Phase::Sending
                    };
                }
            },
            Phase::Sending => {
                if let WorkerEvent::WriteDone(ok) = ev {
                    if *ok {
                        self.phase = Phase::PollAfterSend;
                        if self.sent < u64::MAX {
                            self.sent = self.sent + 1;
                        }
                    } else {
                        self.phase = Phase::Done;
                    }
                }
            },
            Phase::PollAfterSend => {
                if let WorkerEvent::StopFlag(stop) = ev {
                    self.phase = if *stop {
                        Phase::Done
                    } else {
                        Phase::Reading
                    };
                }
            },
            Phase::Reading => {
                if let WorkerEvent::ReadDone(outcome) = ev {
                    match outcome {
                        ReadEvent::Failed => {
                            self.phase = Phase::Done;
                        },
                        ReadEvent::Data(bytes) => {
                            if bytes.len() == 0 {
                                self.phase = Phase::Done;
                            } else if bytes.len() < MESSAGE_TOTAL_SIZE {
                                // incomplete frame: abandon the iteration and loop
                                self.phase = Phase::PollBeforeSend;
                            } else {
                                match ChatMessage::unpack(bytes.as_slice()) {
                                    Ok(response) => {
                                        if is_server_tag(response.msg_type) {
                                            if self.received < u64::MAX {
                                                self.received = self.received + 1;
                                            }
                                        }
                                    },
                                    Err(_) => {},
                                }
                                self.phase = Phase::PollBeforeSend;
                            }
                        },
                    }
                }
            },
            Phase::Done => {},
        }
    }

    /// The counts accumulated so far, as a result for the aggregator.
    pub fn result(&self) -> (r: WorkerResult)
        ensures
            r.sent == self.sent,
            r.received == self.received,
    {
        WorkerResult { sent: self.sent, received: self.received }
    }
}

/// Whether a type byte is one of the server-originated tags.
pub fn is_server_tag(t: u8) -> (r: bool)
    ensures
        r == is_server_type(t),
{
    t == crate::codec::SERVER_ECHO || t == crate::codec::SERVER_ACK
        || t == crate::codec::SERVER_INFO
}

/// The payload every iteration sends: the letter `A` repeated, capped at the
/// fixed payload size.
pub fn test_payload(length: usize) -> (v: Vec<u8>)
    ensures
        v@.len() as int == capped_payload_len(length as int),
        forall|i: int| 0 <= i < v@.len() ==> v@[i] == 0x41u8,
{
    let data_length = if length < MESSAGE_DATA_SIZE {
        length
    } else {
        MESSAGE_DATA_SIZE
    };
    let mut v: Vec<u8> = Vec::new();
    let mut i: usize = 0;
    while i < data_length
        invariant
            i <= data_length,
            v@.len() == i,
            forall|j: int| 0 <= j < i ==> v@[j] == 0x41u8,
        decreases data_length - i,
    {
        v.push(0x41);
        i += 1;
    }
    v
}

/// The exact frame a worker writes each iteration: a client chat message
/// carrying `payload`, in its fixed 1024-byte wire form.
pub fn client_chat_frame(payload: &[u8]) -> (buf: Vec<u8>)
    ensures
        buf@.len() == MESSAGE_TOTAL_SIZE,
        buf@[0] == CLIENT_CHAT,
        le16(buf@[1], buf@[2]) as int == capped_payload_len(payload@.len() as int),
        forall|i: int|
            0 <= i < capped_payload_len(payload@.len() as int) ==> buf@[
                crate::codec::MESSAGE_HEADER_SIZE + i
            ] == payload@[i],
        forall|i: int|
            capped_payload_len(payload@.len() as int) <= i < MESSAGE_DATA_SIZE ==> #[trigger] buf@[
                crate::codec::MESSAGE_HEADER_SIZE + i
            ] == 0,
{
    let message = ChatMessage::new(CLIENT_CHAT, payload);
    let buf = message.pack();
    proof {
        assert(message.length % 256 + 256 * (message.length / 256) == message.length);
    }
    buf
}

/// The counter invariant a worker keeps: it never counts more responses
/// than requests, and past a completed send there is room for the response
/// that may still arrive (unless the sent counter has saturated).
pub open spec fn counts_consistent(s: WorkerState) -> bool {
    &&& s.received <= s.sent
    &&& (s.phase == Phase::PollAfterSend || s.phase == Phase::Reading) ==> (s.received < s.sent
        || s.sent == u64::MAX)
}

/// Every event preserves the counter invariant: a response is only ever
/// counted after the send it answers was counted.
pub proof fn lemma_step_preserves_counts(s: WorkerState, ev: WorkerEvent)
    requires
        counts_consistent(s),
    ensures
        counts_consistent(step_spec(s, ev)),
{
}

/// Along any whole run from a state with consistent counters, the received
/// count stays at or below the sent count.
pub proof fn lemma_trace_counts_consistent(s: WorkerState, evs: Seq<WorkerEvent>)
    requires
        counts_consistent(s),
    ensures
        counts_consistent(run_trace(s, evs)),
        run_trace(s, evs).received <= run_trace(s, evs).sent,
    decreases evs.len(),
{
    if evs.len() > 0 {
        lemma_step_preserves_counts(s, evs[0]);
        lemma_trace_counts_consistent(step_spec(s, evs[0]), evs.drop_first());
    }
}

/// Once a worker is done its state is final: no sequence of later events
/// changes it.
pub proof fn lemma_done_is_final(s: WorkerState, evs: Seq<WorkerEvent>)
    requires
        s.phase == Phase::Done,
    ensures
        run_trace(s, evs) == s,
    decreases evs.len(),
{
    if evs.len() > 0 {
        lemma_done_is_final(step_spec(s, evs[0]), evs.drop_first());
    }
}

/// Stop monotonicity: a worker that observes the stop signal at either poll
/// point moves straight to `Done`, and however the run goes on afterwards,
/// its sent count never rises above its value at that moment.
pub proof fn lemma_stop_monotone(s: WorkerState, evs: Seq<WorkerEvent>)
    requires
        s.phase == Phase::PollBeforeSend || s.phase == Phase::PollAfterSend,
    ensures
        step_spec(s, WorkerEvent::StopFlag(true)).phase == Phase::Done,
        step_spec(s, WorkerEvent::StopFlag(true)).sent == s.sent,
        run_trace(step_spec(s, WorkerEvent::StopFlag(true)), evs).sent == s.sent,
{
    lemma_done_is_final(step_spec(s, WorkerEvent::StopFlag(true)), evs);
}

} // verus!
