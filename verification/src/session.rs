//! The course of the monitor: the connection is checked once; if the meter is
//! there, a session is opened; then it is polled, cycle after cycle. Whether the
//! check or the opening succeeds does not decide on the polling.

use vstd::prelude::*;

use crate::crc::crc16;
use crate::error::{seen, Fault, MeterError};
use crate::meter::{
    check_frame, check_verdict, init_frame, init_verdict, law_check_by_bytes, law_init_by_bytes,
    law_session_frame_layout, MercuryMeter,
};
use crate::snapshot::{
    cycle, fault_in, heard, law_fault_by_length, law_query_by_bytes, query_frame, snapshot_of,
    Collector, FullMeterSnapshot, Heard, CYCLE_LENGTH,
};

verus! {

/// What is worth telling about a reply.
#[derive(Debug)]
pub enum Notice {
    /// The meter is there.
    Verified,
    /// The connection check failed.
    CheckFailed { error: MeterError },
    /// An attempt to open a session was answered.
    Opened { verdict: Result<(), MeterError> },
    /// A parameter was read.
    Fetched,
    /// A parameter could not be read.
    FetchFailed { error: MeterError },
}

/// A [`Notice`] with its errors as faults.
pub enum Remark {
    Verified,
    CheckFailed { fault: Fault },
    Opened { verdict: Result<(), Fault> },
    Fetched,
    FetchFailed { fault: Fault },
}

impl View for Notice {
    type V = Remark;

    open spec fn view(&self) -> Remark {
        match *self {
            Notice::Verified => Remark::Verified,
            Notice::CheckFailed { error } => Remark::CheckFailed { fault: error@ },
            Notice::Opened { verdict } => Remark::Opened { verdict: seen(verdict) },
            Notice::Fetched => Remark::Fetched,
            Notice::FetchFailed { error } => Remark::FetchFailed { fault: error@ },
        }
    }
}

/// Where the monitor stands: what it waits for, and what was heard in this cycle.
pub enum Standing {
    Checking,
    Opening,
    Polling { replies: Seq<Heard> },
}

/// What the outcome of an exchange says about the connection.
pub open spec fn check_outcome(reply: Heard) -> Result<(), Fault> {
    match reply {
        Ok(resp) => check_verdict(resp),
        Err(fault) => Err(fault),
    }
}

/// What the outcome of an exchange says about the opening of a session.
pub open spec fn open_outcome(reply: Heard) -> Result<(), Fault> {
    match reply {
        Ok(resp) => init_verdict(resp),
        Err(fault) => Err(fault),
    }
}

/// The command that is due, unless a cycle is complete.
pub open spec fn command_due(address: u8, standing: Standing) -> Option<Seq<u8>> {
    match standing {
        Standing::Checking => Some(check_frame(address)),
        Standing::Opening => Some(init_frame(address)),
        Standing::Polling { replies } => if replies.len() < CYCLE_LENGTH {
            Some(query_frame(address, cycle()[replies.len() as int]))
        } else {
            None
        },
    }
}

/// Where the monitor stands after an outcome.
pub open spec fn follow(standing: Standing, reply: Heard) -> Standing {
    match standing {
        Standing::Checking => if check_outcome(reply) is Ok {
            Standing::Opening
        } else {
            Standing::Polling { replies: Seq::empty() }
        },
        Standing::Opening => Standing::Polling { replies: Seq::empty() },
        Standing::Polling { replies } => Standing::Polling { replies: replies.push(reply) },
    }
}

/// What is worth telling about an outcome.
pub open spec fn remark(standing: Standing, reply: Heard) -> Remark {
    match standing {
        Standing::Checking => match check_outcome(reply) {
            Ok(_) => Remark::Verified,
            Err(fault) => Remark::CheckFailed { fault },
        },
        Standing::Opening => Remark::Opened { verdict: open_outcome(reply) },
        Standing::Polling { replies } => match fault_in(cycle()[replies.len() as int], reply) {
            Some(fault) => Remark::FetchFailed { fault },
            None => Remark::Fetched,
        },
    }
}

enum State {
    Checking,
    Opening,
    Polling(Collector),
}

/// The monitor at work on one meter.
pub struct Session {
    meter: MercuryMeter,
    state: State,
}

impl Session {
    /// The meter that is watched.
    pub closed spec fn watches(&self) -> MercuryMeter {
        self.meter
    }

    /// Where the monitor stands.
    pub closed spec fn standing(&self) -> Standing {
        match self.state {
            State::Checking => Standing::Checking,
            State::Opening => Standing::Opening,
            State::Polling(collector) => Standing::Polling { replies: collector.replies() },
        }
    }

    #[verifier::type_invariant]
    closed spec fn well_formed(self) -> bool {
        self.state matches State::Polling(collector) ==> collector.polls() == self.meter
    }

    /// A monitor that has not spoken to the meter yet.
    pub fn new(meter: MercuryMeter) -> (session: Session)
        ensures
            session.watches() == meter,
            session.standing() == Standing::Checking,
    {
        Session { meter, state: State::Checking }
    }

    /// The command to send next, or none if a cycle is complete.
    pub fn command(&self) -> (command: Option<Vec<u8>>)
        ensures
            match command {
                Some(bytes) => command_due(self.watches().address, self.standing()) == Some(bytes@),
                None => command_due(self.watches().address, self.standing()) == None::<Seq<u8>>,
            },
            match self.standing() {
                Standing::Checking => command matches Some(bytes) && {
                    &&& bytes@.len() == 4
                    &&& bytes@[0] == self.watches().address
                    &&& bytes@[1] == 0
                    &&& crc16(bytes@) == 0
                },
                Standing::Opening => command matches Some(bytes) && {
                    &&& bytes@.len() == 11
                    &&& bytes@[0] == self.watches().address
                    &&& forall|i: int| 1 <= i < 9 ==> #[trigger] bytes@[i] == 1
                    &&& crc16(bytes@) == 0
                },
                Standing::Polling { replies } => match command {
                    Some(bytes) => {
                        &&& replies.len() < 11
                        &&& bytes@.len() == 6
                        &&& bytes@[0] == self.watches().address
                        &&& crc16(bytes@) == 0
                    },
                    None => replies.len() >= 11,
                },
            },
    {
        proof {
            use_type_invariant(self);
        }
        match &self.state {
            State::Checking => Some(self.meter.check_connection_cmd()),
            State::Opening => Some(self.meter.init_cmd()),
            State::Polling(collector) => collector.command(),
        }
    }

    /// The monitor after the outcome of the exchange that was due, whatever it is, and
    /// what is worth telling about it.
    pub fn absorb(self, reply: Result<Vec<u8>, MeterError>) -> (after: (Session, Notice))
        requires
            command_due(self.watches().address, self.standing()) is Some,
        ensures
            after.0.watches() == self.watches(),
            after.0.standing() == follow(self.standing(), heard(reply)),
            after.1@ == remark(self.standing(), heard(reply)),
            self.standing() is Checking ==> match reply {
                Err(error) => {
                    &&& after.0.standing() == (Standing::Polling { replies: Seq::empty() })
                    &&& after.1 == (Notice::CheckFailed { error })
                },
                Ok(bytes) => if bytes@.len() >= 4 && crc16(bytes@.take(bytes@.len() - 2))
                    == bytes@[bytes@.len() - 2] + 256 * bytes@[bytes@.len() - 1]
                    && bytes@[1] as int % 16 == 0 {
                    &&& after.0.standing() is Opening
                    &&& after.1 is Verified
                } else {
                    &&& after.0.standing() == (Standing::Polling { replies: Seq::empty() })
                    &&& after.1 is CheckFailed
                },
            },
            self.standing() is Opening ==> {
                &&& after.0.standing() == (Standing::Polling { replies: Seq::empty() })
                &&& after.1 matches Notice::Opened { verdict }
                &&& match reply {
                    Err(error) => verdict == Err::<(), MeterError>(error),
                    Ok(bytes) => verdict is Ok <==> bytes@.len() >= 4 && bytes@[1] as int % 16 == 0,
                }
            },
            self.standing() matches Standing::Polling { replies } ==> {
                &&& after.0.standing() matches Standing::Polling { replies: grown }
                &&& grown.len() == replies.len() + 1
                &&& forall|i: int| 0 <= i < replies.len() ==> #[trigger] grown[i] == replies[i]
                &&& match reply {
                    Err(error) => {
                        &&& grown.last() == Err::<Seq<u8>, Fault>(error@)
                        &&& after.1 == (Notice::FetchFailed { error })
                    },
                    Ok(bytes) => {
                        &&& grown.last() == Ok::<Seq<u8>, Fault>(bytes@)
                        &&& after.1 is Fetched || after.1 is FetchFailed
                        &&& replies.len() < 2 ==> (after.1 is Fetched <==> bytes@.len() >= 11)
                        &&& 2 <= replies.len() < 5 ==> (after.1 is Fetched <==> bytes@.len() >= 14)
                        &&& replies.len() == 5 ==> (after.1 is Fetched <==> bytes@.len() >= 4)
                        &&& replies.len() > 5 ==> (after.1 is Fetched <==> bytes@.len() >= 18)
                    },
                }
            },
    {
        proof {
            use_type_invariant(&self);
        }
        let meter: MercuryMeter = self.meter;
        match self.state {
            State::Checking => {
                let verdict: Result<(), MeterError> = match reply {
                    Ok(resp) => MercuryMeter::check_connection_reply(resp.as_slice()),
                    Err(error) => Err(error),
                };
                match verdict {
                    Ok(_) => (Session { meter, state: State::Opening }, Notice::Verified),
                    Err(error) => (
                        Session { meter, state: State::Polling(Collector::new(meter)) },
                        Notice::CheckFailed { error },
                    ),
                }
            },
            State::Opening => {
                let verdict: Result<(), MeterError> = match reply {
                    Ok(resp) => MercuryMeter::init_reply(resp.as_slice()),
                    Err(error) => Err(error),
                };
                (
                    Session { meter, state: State::Polling(Collector::new(meter)) },
                    Notice::Opened { verdict },
                )
            },
            State::Polling(collector) => {
                let (collector, error) = collector.absorb(reply);
                let notice: Notice = match error {
                    Some(error) => Notice::FetchFailed { error },
                    None => Notice::Fetched,
                };
                (Session { meter, state: State::Polling(collector) }, notice)
            },
        }
    }

    /// The snapshot of a complete cycle, and the monitor before the next one.
    pub fn next_cycle(self) -> (after: (Session, Option<FullMeterSnapshot>))
        ensures
            after.0.watches() == self.watches(),
            match self.standing() {
                Standing::Polling { replies } if replies.len() == CYCLE_LENGTH => {
                    &&& after.0.standing() == (Standing::Polling { replies: Seq::empty() })
                    &&& after.1 == Some(snapshot_of(replies))
                },
                _ => after.0 == self && after.1 == None::<FullMeterSnapshot>,
            },
    {
        proof {
            use_type_invariant(&self);
        }
        if self.command().is_some() {
            return (self, None);
        }
        let meter: MercuryMeter = self.meter;
        match self.state {
            State::Polling(collector) => {
                let snapshot: Option<FullMeterSnapshot> = collector.finish();
                (Session { meter, state: State::Polling(Collector::new(meter)) }, snapshot)
            },
            state => (Session { meter, state }, None),
        }
    }
}

/// What is sent while the connection is checked, while a session is opened and while the
/// meter is polled, in bytes. Nothing is due once eleven outcomes are in.
pub proof fn law_command_due_by_bytes(address: u8, replies: Seq<Heard>)
    ensures
        command_due(address, Standing::Checking) matches Some(bytes) && bytes.len() == 4
            && bytes[0] == address && bytes[1] == 0 && crc16(bytes) == 0,
        command_due(address, Standing::Opening) matches Some(bytes) && bytes.len() == 11
            && bytes[0] == address && (forall|i: int| 1 <= i < 9 ==> #[trigger] bytes[i] == 1)
            && crc16(bytes) == 0,
        match command_due(address, Standing::Polling { replies }) {
            Some(bytes) => {
                let n = replies.len();
                &&& n < 11
                &&& bytes.len() == 6
                &&& bytes[0] == address
                &&& n < 6 ==> bytes[1] == 0x08 && bytes[2] == 0x16
                &&& n == 0 ==> bytes[3] == 0x11
                &&& n == 1 ==> bytes[3] == 0x21
                &&& n == 2 ==> bytes[3] == 0x30
                &&& n == 3 ==> bytes[3] == 0x00
                &&& n == 4 ==> bytes[3] == 0x08
                &&& n == 5 ==> bytes[3] == 0x40
                &&& n >= 6 ==> bytes[1] == 0x05
                &&& 6 <= n < 9 ==> bytes[2] == 0x00 && bytes[3] == n - 6
                &&& n == 9 ==> bytes[2] == 0x50 && bytes[3] == 0x00
                &&& n == 10 ==> bytes[2] == 0x40 && bytes[3] == 0x00
                &&& crc16(bytes) == 0
            },
            None => replies.len() >= 11,
        },
{
    law_session_frame_layout(address);
    if replies.len() < CYCLE_LENGTH {
        law_query_by_bytes(address, cycle()[replies.len() as int]);
    }
}

/// What a connection check comes to, in bytes. An exchange that failed, and a reply that is
/// short, damaged or carries an error code, leads straight to the polling and is told
/// with its fault; any other reply leads to the opening of a session.
pub proof fn law_check_settled_by_bytes(resp: Seq<u8>, fault: Fault)
    ensures
        follow(Standing::Checking, Err(fault)) == (Standing::Polling { replies: Seq::empty() }),
        remark(Standing::Checking, Err(fault)) == (Remark::CheckFailed { fault }),
        ({
            let computed = crc16(resp.take(resp.len() - 2));
            let carried = resp[resp.len() - 2] + 256 * resp[resp.len() - 1];
            let fault = if resp.len() < 4 {
                Some(Fault::ShortCheck)
            } else if computed != carried {
                Some(Fault::CrcMismatch { computed, carried: carried as u16 })
            } else if resp[1] as int % 16 != 0 {
                Some(Fault::ErrorCode { code: (resp[1] as int % 16) as u8 })
            } else {
                None
            };
            match fault {
                None => {
                    &&& follow(Standing::Checking, Ok(resp)) == Standing::Opening
                    &&& remark(Standing::Checking, Ok(resp)) == Remark::Verified
                },
                Some(fault) => {
                    &&& follow(Standing::Checking, Ok(resp)) == (Standing::Polling {
                        replies: Seq::empty(),
                    })
                    &&& remark(Standing::Checking, Ok(resp)) == (Remark::CheckFailed { fault })
                },
            }
        }),
{
    law_check_by_bytes(resp);
}

/// The opening of a session is followed by the polling, whatever comes of it; what came
/// of it is told.
pub proof fn law_opening_settled_by_bytes(resp: Seq<u8>, fault: Fault)
    ensures
        follow(Standing::Opening, Err(fault)) == (Standing::Polling { replies: Seq::empty() }),
        follow(Standing::Opening, Ok(resp)) == (Standing::Polling { replies: Seq::empty() }),
        remark(Standing::Opening, Err(fault)) == (Remark::Opened { verdict: Err(fault) }),
        remark(Standing::Opening, Ok(resp)) == (Remark::Opened {
            verdict: if resp.len() < 4 {
                Err(Fault::ShortInit { reply: resp })
            } else if resp[1] as int % 16 != 0 {
                Err(Fault::Refused { status: resp[1], reply: resp })
            } else {
                Ok(())
            },
        }),
{
    law_init_by_bytes(resp);
}

/// While the meter is polled, every outcome is added to the cycle, whatever it is. A reply
/// that is long enough for what was asked is a parameter that was read, any other
/// outcome one that was not.
pub proof fn law_polling_settled_by_length(replies: Seq<Heard>, resp: Seq<u8>, fault: Fault)
    requires
        replies.len() < 11,
    ensures
        follow(Standing::Polling { replies }, Ok(resp)) == (Standing::Polling {
            replies: replies + seq![Ok(resp)],
        }),
        follow(Standing::Polling { replies }, Err(fault)) == (Standing::Polling {
            replies: replies + seq![Err(fault)],
        }),
        remark(Standing::Polling { replies }, Err(fault)) == (Remark::FetchFailed { fault }),
        ({
            let n = replies.len();
            let need: int = if n < 2 {
                11
            } else if n < 5 {
                14
            } else if n == 5 {
                4
            } else {
                18
            };
            let fault = if n == 0 {
                Fault::ShortVoltage
            } else if n == 2 {
                Fault::ShortCosF { reply: resp }
            } else if n == 4 {
                Fault::ShortReactivePower { reply: resp }
            } else {
                Fault::ShortReading
            };
            remark(Standing::Polling { replies }, Ok(resp)) == if resp.len() >= need {
                Remark::Fetched
            } else {
                Remark::FetchFailed { fault }
            }
        }),
{
    law_fault_by_length(cycle()[replies.len() as int], resp, fault);
    assert(replies + seq![Ok(resp)] =~= replies.push(Ok(resp)));
    assert(replies + seq![Err(fault)] =~= replies.push(Err(fault)));
}

/// The standing after the first `n` outcomes of the startup and of one cycle.
pub open spec fn standing_after(outcomes: Seq<Heard>, n: nat) -> Standing
    decreases n,
{
    if n == 0 {
        Standing::Checking
    } else {
        follow(standing_after(outcomes, (n - 1) as nat), outcomes[n - 1])
    }
}

/// How many exchanges come before the polling: one if the check fails, and a second
/// one, that opens a session, if it does not.
pub open spec fn startup_length(outcomes: Seq<Heard>) -> nat {
    if check_outcome(outcomes[0]) is Ok {
        2
    } else {
        1
    }
}

/// Whatever the meter answers at first, it is polled; and the cycle is made up of
/// what was heard since.
pub proof fn law_polling_follows_startup(outcomes: Seq<Heard>, n: nat)
    requires
        1 <= outcomes.len(),
        startup_length(outcomes) <= n <= outcomes.len(),
    ensures
        standing_after(outcomes, n) == (Standing::Polling {
            replies: outcomes.subrange(startup_length(outcomes) as int, n as int),
        }),
    decreases n,
{
    let k = startup_length(outcomes);
    if n == k {
        reveal_with_fuel(standing_after, 3);
        assert(outcomes.subrange(k as int, n as int) =~= Seq::<Heard>::empty());
    } else {
        law_polling_follows_startup(outcomes, (n - 1) as nat);
        assert(outcomes.subrange(k as int, n as int) =~= outcomes.subrange(
            k as int,
            n - 1,
        ).push(outcomes[n - 1]));
    }
}

/// The startup takes two exchanges when the first one brought a frame whose checksum is
/// right and whose second byte has its lower four bits clear, and one otherwise.
pub proof fn law_startup_by_bytes(outcomes: Seq<Heard>)
    requires
        1 <= outcomes.len(),
    ensures
        startup_length(outcomes) == match outcomes[0] {
            Ok(resp) => if resp.len() >= 4 && crc16(resp.take(resp.len() - 2)) == resp[resp.len()
                - 2] + 256 * resp[resp.len() - 1] && resp[1] as int % 16 == 0 {
                2nat
            } else {
                1
            },
            Err(_) => 1,
        },
{
    match outcomes[0] {
        Ok(resp) => law_check_by_bytes(resp),
        Err(_) => {},
    }
}

/// A session is opened only with a meter that has just passed the check.
pub proof fn law_opened_only_when_verified(outcomes: Seq<Heard>, n: nat)
    requires
        n <= outcomes.len(),
        standing_after(outcomes, n) is Opening,
    ensures
        n == 1,
        check_outcome(outcomes[0]) is Ok,
{
    reveal_with_fuel(standing_after, 3);
    if n >= 1 && startup_length(outcomes) <= n {
        law_polling_follows_startup(outcomes, n);
    }
}

} // verus!
