//! One exchange with the meter: what to do on the serial line, step by step, and
//! what comes of it.
//!
//! The line is read until it is quiet, left alone for a moment, given the command,
//! left alone while the meter thinks, and read once for the reply. An [`Exchange`]
//! names the next [`Action`]; whoever owns the port performs it and reports the
//! [`Event`] that followed.

use vstd::prelude::*;

use crate::error::{Fault, MeterError};

verus! {

/// How many bytes are thrown away at a time.
pub const DISCARD_LIMIT: usize = 128;

/// How long the line settles before the command, in milliseconds.
pub const SETTLE_MILLIS: u64 = 50;

/// How long the meter is given to answer, in milliseconds.
pub const ANSWER_MILLIS: u64 = 250;

/// How many bytes of a reply are read.
pub const REPLY_LIMIT: usize = 256;

/// What is to be done on the line.
#[derive(Debug, Clone, Copy, PartialEq, Eq, Structural)]
pub enum Action {
    /// Read up to `limit` bytes and throw them away.
    Discard { limit: usize },
    /// Wait.
    Pause { millis: u64 },
    /// Write all of the command.
    Transmit,
    /// Read once, into a buffer of `limit` bytes.
    Receive { limit: usize },
    /// Nothing: the exchange is over.
    Finish,
}

/// What happened on the line.
#[derive(Debug)]
pub enum Event {
    /// A read gave `count` bytes, which were thrown away.
    Discarded { count: usize },
    /// A read to be thrown away failed or timed out.
    DiscardFailed,
    /// A pause is over.
    Rested,
    /// The command was written.
    Sent,
    /// The command could not be written.
    SendFailed { reason: String },
    /// A read put `count` bytes at the front of `buffer`.
    Received { buffer: Vec<u8>, count: usize },
    /// The read of the reply failed or timed out.
    ReceiveFailed { reason: String },
}

/// An [`Event`] with its texts and bytes as sequences.
pub enum Happening {
    Discarded { count: usize },
    DiscardFailed,
    Rested,
    Sent,
    SendFailed { reason: Seq<char> },
    Received { buffer: Seq<u8>, count: usize },
    ReceiveFailed { reason: Seq<char> },
}

impl View for Event {
    type V = Happening;

    open spec fn view(&self) -> Happening {
        match *self {
            Event::Discarded { count } => Happening::Discarded { count },
            Event::DiscardFailed => Happening::DiscardFailed,
            Event::Rested => Happening::Rested,
            Event::Sent => Happening::Sent,
            Event::SendFailed { reason } => Happening::SendFailed { reason: reason@ },
            Event::Received { buffer, count } => Happening::Received { buffer: buffer@, count },
            Event::ReceiveFailed { reason } => Happening::ReceiveFailed { reason: reason@ },
        }
    }
}

/// How far an exchange has come.
#[derive(Debug)]
pub enum Phase {
    Draining,
    Settling,
    Sending,
    Waiting,
    Reading,
    Finished { outcome: Result<Vec<u8>, MeterError> },
}

/// A [`Phase`] with the reply as a sequence.
pub enum Stage {
    Draining,
    Settling,
    Sending,
    Waiting,
    Reading,
    Finished { outcome: Result<Seq<u8>, Fault> },
}

impl View for Phase {
    type V = Stage;

    open spec fn view(&self) -> Stage {
        match *self {
            Phase::Draining => Stage::Draining,
            Phase::Settling => Stage::Settling,
            Phase::Sending => Stage::Sending,
            Phase::Waiting => Stage::Waiting,
            Phase::Reading => Stage::Reading,
            Phase::Finished { outcome } => Stage::Finished {
                outcome: match outcome {
                    Ok(reply) => Ok(reply@),
                    Err(error) => Err(error@),
                },
            },
        }
    }
}

/// What is to be done at a stage.
pub open spec fn action_at(stage: Stage) -> Action {
    match stage {
        Stage::Draining => Action::Discard { limit: DISCARD_LIMIT },
        Stage::Settling => Action::Pause { millis: SETTLE_MILLIS },
        Stage::Sending => Action::Transmit,
        Stage::Waiting => Action::Pause { millis: ANSWER_MILLIS },
        Stage::Reading => Action::Receive { limit: REPLY_LIMIT },
        Stage::Finished { .. } => Action::Finish,
    }
}

/// Whether something can follow from what is done at a stage.
pub open spec fn fits(stage: Stage, happening: Happening) -> bool {
    match stage {
        Stage::Draining => happening is Discarded || happening is DiscardFailed,
        Stage::Settling => happening is Rested,
        Stage::Sending => happening is Sent || happening is SendFailed,
        Stage::Waiting => happening is Rested,
        Stage::Reading => happening is Received || happening is ReceiveFailed,
        Stage::Finished { .. } => false,
    }
}

/// The first `count` bytes of a buffer, or all of a shorter one.
pub open spec fn front(buffer: Seq<u8>, count: int) -> Seq<u8> {
    if count <= buffer.len() {
        buffer.take(count)
    } else {
        buffer
    }
}

/// What comes of the read of the reply.
pub open spec fn reply_of(buffer: Seq<u8>, count: usize) -> Result<Seq<u8>, Fault> {
    if count == 0 {
        Err(Fault::NoResponse)
    } else {
        Ok(front(buffer, count as int))
    }
}

/// Whether the line turned out to be quiet, or at least not to be read any more.
pub open spec fn quiet(happening: Happening) -> bool {
    happening is DiscardFailed || happening == (Happening::Discarded { count: 0 })
}

/// The stage that follows.
pub open spec fn step(stage: Stage, happening: Happening) -> Stage {
    match stage {
        Stage::Draining => if quiet(happening) {
            Stage::Settling
        } else {
            Stage::Draining
        },
        Stage::Settling => Stage::Sending,
        Stage::Sending => match happening {
            Happening::SendFailed { reason } => Stage::Finished {
                outcome: Err(Fault::Port { reason }),
            },
            _ => Stage::Waiting,
        },
        Stage::Waiting => Stage::Reading,
        Stage::Reading => match happening {
            Happening::Received { buffer, count } => Stage::Finished {
                outcome: reply_of(buffer, count),
            },
            Happening::ReceiveFailed { reason } => Stage::Finished {
                outcome: Err(Fault::Port { reason }),
            },
            _ => Stage::Reading,
        },
        Stage::Finished { outcome } => Stage::Finished { outcome },
    }
}

/// An exchange under way: the command, and how far it has come.
#[derive(Debug)]
pub struct Exchange {
    command: Vec<u8>,
    phase: Phase,
}

impl Exchange {
    /// The bytes that this exchange sends.
    pub closed spec fn sends(&self) -> Seq<u8> {
        self.command@
    }

    /// The stage that it has reached.
    pub closed spec fn stage(&self) -> Stage {
        self.phase@
    }

    /// An exchange that sends `command`.
    pub fn new(command: Vec<u8>) -> (exchange: Exchange)
        ensures
            exchange.sends() == command@,
            exchange.stage() == Stage::Draining,
    {
        Exchange { command, phase: Phase::Draining }
    }

    /// The command to be transmitted.
    pub fn command(&self) -> (command: &[u8])
        ensures
            command@ == self.sends(),
    {
        self.command.as_slice()
    }

    /// What is to be done next.
    pub fn action(&self) -> (action: Action)
        ensures
            action == action_at(self.stage()),
            match self.stage() {
                Stage::Draining => action == (Action::Discard { limit: 128 }),
                Stage::Settling => action == (Action::Pause { millis: 50 }),
                Stage::Sending => action == Action::Transmit,
                Stage::Waiting => action == (Action::Pause { millis: 250 }),
                Stage::Reading => action == (Action::Receive { limit: 256 }),
                Stage::Finished { .. } => action == Action::Finish,
            },
    {
        match self.phase {
            Phase::Draining => Action::Discard { limit: DISCARD_LIMIT },
            Phase::Settling => Action::Pause { millis: SETTLE_MILLIS },
            Phase::Sending => Action::Transmit,
            Phase::Waiting => Action::Pause { millis: ANSWER_MILLIS },
            Phase::Reading => Action::Receive { limit: REPLY_LIMIT },
            Phase::Finished { .. } => Action::Finish,
        }
    }

    /// The exchange after `event`, which must be what can follow from the action.
    pub fn advance(self, event: Event) -> (next: Exchange)
        requires
            fits(self.stage(), event@),
        ensures
            next.sends() == self.sends(),
            next.stage() == step(self.stage(), event@),
            self.stage() is Draining ==> match event {
                Event::Discarded { count } => {
                    &&& count > 0 ==> next.stage() is Draining
                    &&& count == 0 ==> next.stage() is Settling
                },
                _ => next.stage() is Settling,
            },
            self.stage() is Settling ==> next.stage() is Sending,
            self.stage() is Sending ==> match event {
                Event::SendFailed { reason } => next.stage() == (Stage::Finished {
                    outcome: Err(Fault::Port { reason: reason@ }),
                }),
                _ => next.stage() is Waiting,
            },
            self.stage() is Waiting ==> next.stage() is Reading,
            self.stage() is Reading ==> match event {
                Event::Received { buffer, count } => match next.stage() {
                    Stage::Finished { outcome: Ok(reply) } => {
                        &&& count > 0
                        &&& count <= buffer@.len() ==> reply.len() == count
                        &&& count > buffer@.len() ==> reply.len() == buffer@.len()
                        &&& forall|i: int| 0 <= i < reply.len()
                            ==> #[trigger] reply[i] == buffer@[i]
                    },
                    Stage::Finished { outcome: Err(fault) } => count == 0 && fault is NoResponse,
                    _ => false,
                },
                Event::ReceiveFailed { reason } => next.stage() == (Stage::Finished {
                    outcome: Err(Fault::Port { reason: reason@ }),
                }),
                _ => true,
            },
    {
        let phase: Phase = match self.phase {
            Phase::Draining => match event {
                Event::Discarded { count } => {
                    if count == 0 {
                        Phase::Settling
                    } else {
                        Phase::Draining
                    }
                },
                _ => Phase::Settling,
            },
            Phase::Settling => Phase::Sending,
            Phase::Sending => match event {
                Event::SendFailed { reason } => Phase::Finished {
                    outcome: Err(MeterError::Port { reason }),
                },
                _ => Phase::Waiting,
            },
            Phase::Waiting => Phase::Reading,
            Phase::Reading => match event {
                Event::Received { buffer, count } => Phase::Finished {
                    outcome: Exchange::reply(buffer, count),
                },
                Event::ReceiveFailed { reason } => Phase::Finished {
                    outcome: Err(MeterError::Port { reason }),
                },
                _ => Phase::Reading,
            },
            Phase::Finished { outcome } => Phase::Finished { outcome },
        };
        Exchange { command: self.command, phase }
    }

    /// The reply in a buffer of which the first `count` bytes were read.
    pub fn reply(buffer: Vec<u8>, count: usize) -> (reply: Result<Vec<u8>, MeterError>)
        ensures
            match reply {
                Ok(bytes) => reply_of(buffer@, count) == Ok::<Seq<u8>, Fault>(bytes@),
                Err(error) => reply_of(buffer@, count) == Err::<Seq<u8>, Fault>(error@),
            },
            match reply {
                Ok(bytes) => {
                    &&& count > 0
                    &&& count <= buffer@.len() ==> bytes@.len() == count
                    &&& count > buffer@.len() ==> bytes@.len() == buffer@.len()
                    &&& forall|i: int|
                        0 <= i < bytes@.len() ==> #[trigger] bytes@[i] == buffer@[i]
                },
                Err(error) => count == 0 && error is NoResponse,
            },
    {
        if count == 0 {
            return Err(MeterError::NoResponse);
        }
        let mut bytes: Vec<u8> = buffer;
        bytes.truncate(count);
        Ok(bytes)
    }

    /// What came of the exchange, if it is over.
    pub fn outcome(self) -> (outcome: Option<Result<Vec<u8>, MeterError>>)
        ensures
            match outcome {
                Some(Ok(reply)) => self.stage() == (Stage::Finished { outcome: Ok(reply@) }),
                Some(Err(error)) => self.stage() == (Stage::Finished { outcome: Err(error@) }),
                None => !(self.stage() is Finished),
            },
    {
        match self.phase {
            Phase::Finished { outcome } => Some(outcome),
            _ => None,
        }
    }
}

/// A read of `count` bytes gives a reply exactly when it read any, and then the reply is
/// those bytes: all of them, no others, each in its place. A buffer shorter than `count`
/// is the reply whole.
pub proof fn law_reply_is_what_was_read(buffer: Seq<u8>, count: usize)
    ensures
        reply_of(buffer, count) is Ok <==> count > 0,
        count == 0 ==> reply_of(buffer, count) == Err::<Seq<u8>, Fault>(Fault::NoResponse),
        reply_of(buffer, count) matches Ok(reply) ==> {
            &&& count <= buffer.len() ==> reply.len() == count
            &&& count > buffer.len() ==> reply.len() == buffer.len()
            &&& forall|i: int| 0 <= i < reply.len() ==> #[trigger] reply[i] == buffer[i]
        },
{
}

/// What lies in the buffer behind the bytes that were read does not reach the reply.
pub proof fn law_rest_of_buffer_is_ignored(read: Seq<u8>, rest: Seq<u8>, count: usize)
    requires
        count == read.len(),
        count > 0,
    ensures
        reply_of(read + rest, count) == Ok::<Seq<u8>, Fault>(read),
{
    assert((read + rest).take(count as int) == read);
}

/// What is done on the line in numbers: bytes are thrown away 128 at a time, the line
/// settles for 50 milliseconds, the meter has 250 to answer, and up to 256 bytes of the
/// reply are read. The command goes out, and the exchange is over, at one stage each.
pub proof fn law_actions_in_numbers(stage: Stage)
    ensures
        action_at(stage) == (Action::Discard { limit: 128 }) <==> stage is Draining,
        action_at(stage) == (Action::Pause { millis: 50 }) <==> stage is Settling,
        action_at(stage) == Action::Transmit <==> stage is Sending,
        action_at(stage) == (Action::Pause { millis: 250 }) <==> stage is Waiting,
        action_at(stage) == (Action::Receive { limit: 256 }) <==> stage is Reading,
        action_at(stage) == Action::Finish <==> stage is Finished,
{
}

/// What can follow is decided by what was done: a read to be thrown away gives bytes or
/// fails, a pause ends, a write or the read of the reply succeeds or fails, and nothing
/// follows the end.
pub proof fn law_events_follow_actions(stage: Stage, happening: Happening)
    ensures
        fits(stage, happening) <==> match action_at(stage) {
            Action::Discard { .. } => happening is Discarded || happening is DiscardFailed,
            Action::Pause { .. } => happening is Rested,
            Action::Transmit => happening is Sent || happening is SendFailed,
            Action::Receive { .. } => happening is Received || happening is ReceiveFailed,
            Action::Finish => false,
        },
{
}

/// The stage after the first `n` of `events`.
pub open spec fn stage_after(events: Seq<Happening>, n: nat) -> Stage
    decreases n,
{
    if n == 0 {
        Stage::Draining
    } else {
        step(stage_after(events, (n - 1) as nat), events[n - 1])
    }
}

/// Whether each of `events` can follow from what was done before it.
pub open spec fn plausible(events: Seq<Happening>) -> bool {
    forall|i: int|
        0 <= i < events.len() ==> fits(stage_after(events, i as nat), #[trigger] events[i])
}

/// A read that found the line still busy.
pub open spec fn noise(happening: Happening) -> bool {
    happening is Discarded && happening->Discarded_count > 0
}

/// The course of an exchange that brings a reply: the line is busy for a while,
/// then quiet; it settles; the command goes out; the meter is given its time; the
/// reply is read.
pub open spec fn brings(events: Seq<Happening>, reply: Seq<u8>) -> bool {
    let n = events.len() as int;
    &&& n >= 5
    &&& forall|i: int| 0 <= i < n - 5 ==> noise(#[trigger] events[i])
    &&& quiet(events[n - 5])
    &&& events[n - 4] is Rested
    &&& events[n - 3] is Sent
    &&& events[n - 2] is Rested
    &&& events[n - 1] matches Happening::Received { buffer, count } && reply_of(buffer, count)
        == Ok::<
        Seq<u8>,
        Fault,
    >(reply)
}

proof fn lemma_drains_through_noise(events: Seq<Happening>, n: nat)
    requires
        n <= events.len(),
        forall|i: int| 0 <= i < n ==> noise(#[trigger] events[i]),
    ensures
        stage_after(events, n) is Draining,
    decreases n,
{
    if n > 0 {
        lemma_drains_through_noise(events, (n - 1) as nat);
        assert(noise(events[n - 1]));
    }
}

proof fn lemma_only_noise_drains(events: Seq<Happening>, n: nat)
    requires
        plausible(events),
        n <= events.len(),
        stage_after(events, n) is Draining,
    ensures
        forall|i: int| 0 <= i < n ==> noise(#[trigger] events[i]),
    decreases n,
{
    if n > 0 {
        let m = (n - 1) as nat;
        assert(fits(stage_after(events, m), events[m as int]));
        lemma_only_noise_drains(events, m);
    }
}

/// An exchange ends with a reply exactly when its events take that course; so no
/// reply is ever read before the line was drained and the command was sent.
pub proof fn law_reply_follows_command(events: Seq<Happening>, reply: Seq<u8>)
    ensures
        plausible(events) && stage_after(events, events.len()) == (Stage::Finished {
            outcome: Ok(reply),
        }) <==> brings(events, reply),
{
    let n = events.len();
    reveal_with_fuel(stage_after, 6);
    if brings(events, reply) {
        let m = (n - 5) as nat;
        lemma_drains_through_noise(events, m);
        assert forall|i: int| 0 <= i < n implies fits(
            stage_after(events, i as nat),
            #[trigger] events[i],
        ) by {
            if i <= m {
                lemma_drains_through_noise(events, i as nat);
                if i < m {
                    assert(noise(events[i]));
                }
            }
        }
    }
    if plausible(events) && stage_after(events, n) == (Stage::Finished { outcome: Ok(reply) }) {
        assert(n >= 1);
        assert(fits(stage_after(events, (n - 1) as nat), events[n - 1]));
        assert(stage_after(events, (n - 1) as nat) is Reading);
        assert(n >= 2);
        assert(fits(stage_after(events, (n - 2) as nat), events[n - 2]));
        assert(stage_after(events, (n - 2) as nat) is Waiting);
        assert(n >= 3);
        assert(fits(stage_after(events, (n - 3) as nat), events[n - 3]));
        assert(stage_after(events, (n - 3) as nat) is Sending);
        assert(n >= 4);
        assert(fits(stage_after(events, (n - 4) as nat), events[n - 4]));
        assert(stage_after(events, (n - 4) as nat) is Settling);
        assert(n >= 5);
        assert(fits(stage_after(events, (n - 5) as nat), events[n - 5]));
        lemma_only_noise_drains(events, (n - 5) as nat);
    }
}

/// The course of an exchange in terms of its events alone: it ends with a reply exactly
/// when every read before the fifth last event found bytes, that event is a read that
/// found none or failed, and a pause, the sending, a pause and a read of some bytes
/// follow. The reply is then what that read put at the front of its buffer.
pub proof fn law_reply_is_read_last(events: Seq<Happening>, reply: Seq<u8>)
    ensures
        plausible(events) && stage_after(events, events.len()) == (Stage::Finished {
            outcome: Ok(reply),
        }) <==> {
            let n = events.len() as int;
            &&& n >= 5
            &&& forall|i: int|
                0 <= i < n - 5 ==> (#[trigger] events[i] matches Happening::Discarded { count }
                    && count > 0)
            &&& match events[n - 5] {
                Happening::DiscardFailed => true,
                Happening::Discarded { count } => count == 0,
                _ => false,
            }
            &&& events[n - 4] is Rested
            &&& events[n - 3] is Sent
            &&& events[n - 2] is Rested
            &&& events[n - 1] matches Happening::Received { buffer, count } && {
                &&& count > 0
                &&& count <= buffer.len() ==> reply.len() == count
                &&& count > buffer.len() ==> reply.len() == buffer.len()
                &&& forall|i: int| 0 <= i < reply.len() ==> #[trigger] reply[i] == buffer[i]
            }
        },
{
    let n = events.len() as int;
    law_reply_follows_command(events, reply);
    if n >= 5 {
        match events[n - 1] {
            Happening::Received { buffer, count } => {
                law_reply_is_what_was_read(buffer, count);
                if reply.len() == front(buffer, count as int).len() && forall|i: int|
                    0 <= i < reply.len() ==> #[trigger] reply[i] == buffer[i] {
                    assert(reply =~= front(buffer, count as int));
                }
            },
            _ => {},
        }
        assert(forall|i: int|
            0 <= i < n - 5 ==> (noise(#[trigger] events[i]) <==> (
            events[i] matches Happening::Discarded { count } && count > 0)));
    }
}

/// An exchange that could not be carried out says why: the reason is that of the write or
/// of the read that failed, and a read of nothing is no response.
pub proof fn law_failure_names_its_reason(events: Seq<Happening>, fault: Fault)
    requires
        plausible(events),
        stage_after(events, events.len()) == (Stage::Finished { outcome: Err(fault) }),
    ensures
        events.len() >= 3,
        match events.last() {
            Happening::SendFailed { reason } => fault == (Fault::Port { reason }),
            Happening::ReceiveFailed { reason } => fault == (Fault::Port { reason }),
            Happening::Received { count, .. } => count == 0 && fault == Fault::NoResponse,
            _ => false,
        },
{
    reveal_with_fuel(stage_after, 4);
    let n = events.len();
    assert(n >= 1);
    let before = stage_after(events, (n - 1) as nat);
    assert(fits(before, events[n - 1]));
    assert(before is Sending || before is Reading);
    assert(n >= 2);
    assert(fits(stage_after(events, (n - 2) as nat), events[n - 2]));
}

/// How late in an exchange a stage comes.
spec fn rank(stage: Stage) -> int {
    match stage {
        Stage::Draining => 0,
        Stage::Settling => 1,
        Stage::Sending => 2,
        Stage::Waiting => 3,
        Stage::Reading => 4,
        Stage::Finished { .. } => 5,
    }
}

proof fn lemma_rank_grows(events: Seq<Happening>, i: nat, j: nat)
    requires
        plausible(events),
        i < j <= events.len(),
        !(stage_after(events, i) is Draining),
    ensures
        rank(stage_after(events, i)) < rank(stage_after(events, j)),
    decreases j - i,
{
    let m = (j - 1) as nat;
    assert(fits(stage_after(events, m), events[m as int]));
    if i < m {
        lemma_rank_grows(events, i, m);
    }
}

/// The command goes out at most once in an exchange.
pub proof fn law_command_sent_once(events: Seq<Happening>, i: nat, j: nat)
    requires
        plausible(events),
        i <= events.len(),
        j <= events.len(),
        action_at(stage_after(events, i)) == Action::Transmit,
        action_at(stage_after(events, j)) == Action::Transmit,
    ensures
        i == j,
{
    if i < j {
        lemma_rank_grows(events, i, j);
    } else if j < i {
        lemma_rank_grows(events, j, i);
    }
}

/// Once the line has been found quiet, an exchange is over within four more
/// events.
pub proof fn law_exchange_ends(events: Seq<Happening>, i: nat)
    requires
        plausible(events),
        i < events.len(),
        quiet(events[i as int]),
    ensures
        events.len() <= i + 5,
{
    if events.len() > i + 5 {
        assert(fits(stage_after(events, i), events[i as int]));
        lemma_rank_grows(events, i + 1, i + 2);
        lemma_rank_grows(events, i + 2, i + 3);
        lemma_rank_grows(events, i + 3, i + 4);
        lemma_rank_grows(events, i + 4, i + 5);
        assert(fits(stage_after(events, i + 5), events[i as int + 5]));
    }
}

} // verus!
