use vstd::prelude::*;
use crate::wire::{be_value, as_signed64, decode_i64_be};

verus! {

/// Length of a response code.
pub const CODE_LEN: usize = 3;

/// Length of the integer that follows a successful query.
pub const DATA_LEN: usize = 8;

/// What one request came to, as shown to the operator.
#[derive(Clone, Copy, Debug, PartialEq, Eq, Structural)]
pub enum Outcome {
    /// `OK ` for a request that carries no answer.
    Confirmed,
    /// `OK ` followed by the answer to a query.
    Answer(i64),
    /// `E00`: the server could not read the request.
    BadSend,
    /// `E01`: the timestamp was stale or reused within a second.
    BadTimestamp,
    /// `E02`: the sending user is not registered.
    UnregisteredUser,
    /// `E03`: the signature was rejected.
    BadSignature,
    /// `E05`: the receiving user does not exist.
    UnknownRecipient,
    /// Any other code, passed through byte for byte.
    Unexpected(u8, u8, u8),
    /// The connection could not be opened; nothing was written.
    ConnectFailed,
    /// Writing the request failed.
    SendFailed,
    /// The three bytes of the response code did not arrive.
    NoConfirmation,
    /// The eight bytes of the answer did not arrive.
    NoData,
    /// An event came that the exchange was not waiting for.
    OutOfOrder,
}

/// The next thing a response code calls for.
#[derive(Clone, Copy, Debug, PartialEq, Eq, Structural)]
pub enum Reply {
    /// Eight more bytes must be read.
    NeedData,
    /// The exchange is over.
    Final(Outcome),
}

/// The outcome named by a response code, when data is not awaited.
pub open spec fn code_outcome(c: Seq<u8>) -> Outcome {
    if c == seq![79u8, 75u8, 32u8] {
        Outcome::Confirmed
    } else if c == seq![69u8, 48u8, 48u8] {
        Outcome::BadSend
    } else if c == seq![69u8, 48u8, 49u8] {
        Outcome::BadTimestamp
    } else if c == seq![69u8, 48u8, 50u8] {
        Outcome::UnregisteredUser
    } else if c == seq![69u8, 48u8, 51u8] {
        Outcome::BadSignature
    } else if c == seq![69u8, 48u8, 53u8] {
        Outcome::UnknownRecipient
    } else {
        Outcome::Unexpected(c[0], c[1], c[2])
    }
}

/// What a response code calls for: more data only for `OK ` when awaited.
pub open spec fn reply_spec(c: Seq<u8>, await_data: bool) -> Reply {
    if c == seq![79u8, 75u8, 32u8] && await_data {
        Reply::NeedData
    } else {
        Reply::Final(code_outcome(c))
    }
}

/// `E02` means an unregistered user whether or not data was awaited.
pub proof fn lemma_unregistered_any_flag(await_data: bool)
    ensures
        reply_spec(seq![69u8, 48u8, 50u8], await_data) == Reply::Final(Outcome::UnregisteredUser),
{
    assert(seq![69u8, 48u8, 50u8] != seq![79u8, 75u8, 32u8]) by {
        assert(seq![69u8, 48u8, 50u8][0] != seq![79u8, 75u8, 32u8][0]);
    }
    assert(seq![69u8, 48u8, 50u8] != seq![69u8, 48u8, 48u8]) by {
        assert(seq![69u8, 48u8, 50u8][2] != seq![69u8, 48u8, 48u8][2]);
    }
    assert(seq![69u8, 48u8, 50u8] != seq![69u8, 48u8, 49u8]) by {
        assert(seq![69u8, 48u8, 50u8][2] != seq![69u8, 48u8, 49u8][2]);
    }
}

/// A code outside the known set is handed back byte for byte, whether or
/// not data was awaited.
pub proof fn lemma_unknown_code_passthrough(c: Seq<u8>, await_data: bool)
    requires
        c.len() == CODE_LEN,
        c != seq![79u8, 75u8, 32u8],
        c != seq![69u8, 48u8, 48u8],
        c != seq![69u8, 48u8, 49u8],
        c != seq![69u8, 48u8, 50u8],
        c != seq![69u8, 48u8, 51u8],
        c != seq![69u8, 48u8, 53u8],
    ensures
        reply_spec(c, await_data) == Reply::Final(Outcome::Unexpected(c[0], c[1], c[2])),
{
}

/// Decodes a three-byte response code.
pub fn decode_confirmation(code: &[u8], await_data: bool) -> (r: Reply)
    requires
        code@.len() == CODE_LEN,
    ensures
        r == reply_spec(code@, await_data),
{
    let (a, b, c) = (code[0], code[1], code[2]);
    proof {
        assert(code@ =~= seq![a, b, c]);
    }
    if a == 79 && b == 75 && c == 32 {
        if await_data {
            Reply::NeedData
        } else {
            Reply::Final(Outcome::Confirmed)
        }
    } else if a == 69 && b == 48 && c == 48 {
        Reply::Final(Outcome::BadSend)
    } else if a == 69 && b == 48 && c == 49 {
        Reply::Final(Outcome::BadTimestamp)
    } else if a == 69 && b == 48 && c == 50 {
        Reply::Final(Outcome::UnregisteredUser)
    } else if a == 69 && b == 48 && c == 51 {
        Reply::Final(Outcome::BadSignature)
    } else if a == 69 && b == 48 && c == 53 {
        Reply::Final(Outcome::UnknownRecipient)
    } else {
        proof {
            assert(seq![a, b, c][0] == a && seq![a, b, c][1] == b && seq![a, b, c][2] == c);
        }
        Reply::Final(Outcome::Unexpected(a, b, c))
    }
}

/// Decodes the answer that follows `OK ` for a query.
pub fn decode_data(data: &[u8]) -> (r: Outcome)
    requires
        data@.len() == DATA_LEN,
    ensures
        r matches Outcome::Answer(v) && v as int == as_signed64(be_value(data@)),
{
    Outcome::Answer(decode_i64_be(data))
}


/// Where an exchange with the server stands.
#[derive(Clone, Copy, Debug, PartialEq, Eq, Structural)]
pub enum Phase {
    /// Waiting for the connection to open.
    Connecting,
    /// Connected; the request is to be written.
    Sending,
    /// Written; the response code is to be read.
    AwaitingConfirmation,
    /// `OK ` came for a query; the answer is to be read.
    AwaitingData,
    /// Over; nothing more is done.
    Finished,
}

/// What the byte channel reports back to the exchange.
#[derive(Debug)]
pub enum Event {
    /// The connection opened.
    Connected,
    /// The connection could not be opened.
    ConnectFailed,
    /// The whole request was written.
    Sent,
    /// Writing the request failed.
    SendFailed,
    /// The bytes asked for by the last read.
    Received(Vec<u8>),
    /// The last read did not fill its buffer.
    ReceiveFailed,
}

/// What the exchange asks the byte channel to do next.
#[derive(Clone, Copy, Debug, PartialEq, Eq, Structural)]
pub enum Action {
    /// Write the whole request.
    Write,
    /// Read exactly this many bytes.
    Read(usize),
    /// Stop, with this outcome.
    Finish(Outcome),
}

/// One step of the exchange: the next phase and the action it asks for.
pub open spec fn step_spec(phase: Phase, await_data: bool, ev: Event) -> (Phase, Action) {
    match (phase, ev) {
        (Phase::Connecting, Event::Connected) => (Phase::Sending, Action::Write),
        (Phase::Connecting, Event::ConnectFailed) => (Phase::Finished, Action::Finish(Outcome::ConnectFailed)),
        (Phase::Sending, Event::Sent) => (Phase::AwaitingConfirmation, Action::Read(CODE_LEN)),
        (Phase::Sending, Event::SendFailed) => (Phase::Finished, Action::Finish(Outcome::SendFailed)),
        (Phase::AwaitingConfirmation, Event::Received(b)) =>
            if b@.len() != CODE_LEN {
                (Phase::Finished, Action::Finish(Outcome::NoConfirmation))
            } else {
                match reply_spec(b@, await_data) {
                    Reply::NeedData => (Phase::AwaitingData, Action::Read(DATA_LEN)),
                    Reply::Final(o) => (Phase::Finished, Action::Finish(o)),
                }
            },
        (Phase::AwaitingConfirmation, Event::ReceiveFailed) => (Phase::Finished, Action::Finish(Outcome::NoConfirmation)),
        (Phase::AwaitingData, Event::Received(b)) =>
            if b@.len() != DATA_LEN {
                (Phase::Finished, Action::Finish(Outcome::NoData))
            } else {
                (Phase::Finished, Action::Finish(Outcome::Answer(as_signed64(be_value(b@)) as i64)))
            },
        (Phase::AwaitingData, Event::ReceiveFailed) => (Phase::Finished, Action::Finish(Outcome::NoData)),
        _ => (Phase::Finished, Action::Finish(Outcome::OutOfOrder)),
    }
}

/// The actions that a run of events draws from an exchange.
pub open spec fn run_spec(phase: Phase, await_data: bool, evs: Seq<Event>) -> Seq<Action>
    decreases evs.len(),
{
    if evs.len() == 0 {
        Seq::empty()
    } else {
        let (next, act) = step_spec(phase, await_data, evs[0]);
        seq![act] + run_spec(next, await_data, evs.drop_first())
    }
}

/// One request/response exchange over a byte channel.
pub struct Exchange {
    phase: Phase,
    await_data: bool,
}

impl Exchange {
    /// The phase the exchange is in.
    pub closed spec fn phase_spec(&self) -> Phase {
        self.phase
    }

    /// Whether an answer is read after `OK `.
    pub closed spec fn awaits_data(&self) -> bool {
        self.await_data
    }

    /// A fresh exchange; `await_data` is set for requests answered with an integer.
    pub fn new(await_data: bool) -> (r: Exchange)
        ensures
            r.phase_spec() == Phase::Connecting,
            r.awaits_data() == await_data,
    {
        Exchange { phase: Phase::Connecting, await_data }
    }

    /// The phase the exchange is in.
    pub fn phase(&self) -> (r: Phase)
        ensures
            r == self.phase_spec(),
    {
        self.phase
    }

    /// Takes in what the channel reported and says what to do next.
    pub fn step(&mut self, ev: &Event) -> (r: Action)
        ensures
            (final(self).phase_spec(), r) == step_spec(old(self).phase_spec(), old(self).awaits_data(), *ev),
            final(self).awaits_data() == old(self).awaits_data(),
    {
        let (next, act) = match (self.phase, ev) {
            (Phase::Connecting, Event::Connected) => (Phase::Sending, Action::Write),
            (Phase::Connecting, Event::ConnectFailed) => (Phase::Finished, Action::Finish(Outcome::ConnectFailed)),
            (Phase::Sending, Event::Sent) => (Phase::AwaitingConfirmation, Action::Read(CODE_LEN)),
            (Phase::Sending, Event::SendFailed) => (Phase::Finished, Action::Finish(Outcome::SendFailed)),
            (Phase::AwaitingConfirmation, Event::Received(b)) => {
                if b.len() != CODE_LEN {
                    (Phase::Finished, Action::Finish(Outcome::NoConfirmation))
                } else {
                    match decode_confirmation(b.as_slice(), self.await_data) {
                        Reply::NeedData => (Phase::AwaitingData, Action::Read(DATA_LEN)),
                        Reply::Final(o) => (Phase::Finished, Action::Finish(o)),
                    }
                }
            },
            (Phase::AwaitingConfirmation, Event::ReceiveFailed) => (Phase::Finished, Action::Finish(Outcome::NoConfirmation)),
            (Phase::AwaitingData, Event::Received(b)) => {
                if b.len() != DATA_LEN {
                    (Phase::Finished, Action::Finish(Outcome::NoData))
                } else {
                    (Phase::Finished, decode_data_action(b.as_slice()))
                }
            },
            (Phase::AwaitingData, Event::ReceiveFailed) => (Phase::Finished, Action::Finish(Outcome::NoData)),
            _ => (Phase::Finished, Action::Finish(Outcome::OutOfOrder)),
        };
        self.phase = next;
        act
    }
}

/// The final action for the answer that follows `OK `.
fn decode_data_action(b: &[u8]) -> (r: Action)
    requires
        b@.len() == DATA_LEN,
    ensures
        r == Action::Finish(Outcome::Answer(as_signed64(be_value(b@)) as i64)),
{
    Action::Finish(decode_data(b))
}

/// Once an exchange is finished, no event makes it write.
pub proof fn lemma_finished_never_writes(await_data: bool, evs: Seq<Event>)
    ensures
        forall|i: int| 0 <= i < evs.len() ==> #[trigger] run_spec(Phase::Finished, await_data, evs)[i] != Action::Write,
        run_spec(Phase::Finished, await_data, evs).len() == evs.len(),
    decreases evs.len(),
{
    if evs.len() > 0 {
        lemma_finished_never_writes(await_data, evs.drop_first());
        let rest = run_spec(Phase::Finished, await_data, evs.drop_first());
        assert forall|i: int| 0 <= i < evs.len() implies #[trigger] run_spec(Phase::Finished, await_data, evs)[i] != Action::Write by {
            if i > 0 {
                assert(run_spec(Phase::Finished, await_data, evs)[i] == rest[i - 1]);
            }
        }
    }
}

/// A connection failure ends the exchange at once with its own outcome, one
/// that is not the missing-confirmation outcome, and no later event makes
/// the exchange write the request.
pub proof fn lemma_connect_failure_never_writes(await_data: bool, later: Seq<Event>)
    ensures
        ({
            let acts = run_spec(Phase::Connecting, await_data, seq![Event::ConnectFailed] + later);
            &&& acts.len() == later.len() + 1
            &&& acts[0] == Action::Finish(Outcome::ConnectFailed)
            &&& acts[0] != Action::Finish(Outcome::NoConfirmation)
            &&& forall|i: int| 0 <= i < acts.len() ==> acts[i] != Action::Write
        }),
{
    let evs = seq![Event::ConnectFailed] + later;
    assert(evs.drop_first() =~= later);
    lemma_finished_never_writes(await_data, later);
    let acts = run_spec(Phase::Connecting, await_data, evs);
    assert forall|i: int| 0 <= i < acts.len() implies acts[i] != Action::Write by {
        if i > 0 {
            assert(acts[i] == run_spec(Phase::Finished, await_data, later)[i - 1]);
        }
    }
}

} // verus!
