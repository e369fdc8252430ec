//! One polling cycle: every parameter is asked for once, and what could be read is
//! collected. A parameter that cannot be read is left out; it does not stop the
//! cycle.

use vstd::prelude::*;

use crate::crc::crc16;
use crate::decode::Reading;
use crate::error::{Fault, MeterError};
use crate::meter::{
    active_power_of, cos_f_of, current_of, energy_of, energy_param, frequency_in,
    law_read_frame_layout, reactive_power_of, read_frame, voltage_of, MercuryMeter, PhaseDataRaw,
    PowerCounterRaw, SumPhaseDataRaw,
};

verus! {

/// Three phases, as far as they could be read.
#[derive(Debug, Clone, Copy, PartialEq, Eq)]
pub struct PhaseData {
    pub p1: Option<Reading>,
    pub p2: Option<Reading>,
    pub p3: Option<Reading>,
}

/// Three phases and their sum, as far as they could be read.
#[derive(Debug, Clone, Copy, PartialEq, Eq)]
pub struct SumPhaseData {
    pub sum: Option<Reading>,
    pub p1: Option<Reading>,
    pub p2: Option<Reading>,
    pub p3: Option<Reading>,
}

/// Everything that one cycle reads from the meter. The phase angles are not asked
/// for and stay empty.
#[derive(Debug, Clone, Copy, PartialEq, Eq)]
pub struct FullMeterSnapshot {
    pub voltage: PhaseData,
    pub current: PhaseData,
    pub cos_f: SumPhaseData,
    pub frequency: Option<Reading>,
    pub phase_angles: PhaseData,
    pub active_power: SumPhaseData,
    pub reactive_power: SumPhaseData,
    pub total_consumed_kw: Option<Reading>,
    pub tariff_day_kw: Option<Reading>,
    pub tariff_night_kw: Option<Reading>,
    pub yesterday_kw: Option<Reading>,
    pub today_kw: Option<Reading>,
}

/// A parameter that is asked for.
#[derive(Debug, Clone, Copy, PartialEq, Eq, Structural)]
pub enum Query {
    Voltage,
    Current,
    CosF,
    ActivePower,
    ReactivePower,
    Frequency,
    Energy { period_id: u8, month: u8, tariff: u8 },
}

/// The number of parameters in a cycle.
pub const CYCLE_LENGTH: usize = 11;

/// The parameters of a cycle, in the order in which they are asked for. The
/// energies are the total, that of the day and of the night tariff, that of
/// yesterday and that of today.
pub open spec fn cycle() -> Seq<Query> {
    seq![
        Query::Voltage,
        Query::Current,
        Query::CosF,
        Query::ActivePower,
        Query::ReactivePower,
        Query::Frequency,
        Query::Energy { period_id: 0, month: 0, tariff: 0 },
        Query::Energy { period_id: 0, month: 0, tariff: 1 },
        Query::Energy { period_id: 0, month: 0, tariff: 2 },
        Query::Energy { period_id: 5, month: 0, tariff: 0 },
        Query::Energy { period_id: 4, month: 0, tariff: 0 },
    ]
}

/// The bytes that ask the meter at `address` for a parameter.
pub open spec fn query_frame(address: u8, query: Query) -> Seq<u8> {
    match query {
        Query::Voltage => read_frame(address, 0x08, 0x16, 0x11),
        Query::Current => read_frame(address, 0x08, 0x16, 0x21),
        Query::CosF => read_frame(address, 0x08, 0x16, 0x30),
        Query::ActivePower => read_frame(address, 0x08, 0x16, 0x00),
        Query::ReactivePower => read_frame(address, 0x08, 0x16, 0x08),
        Query::Frequency => read_frame(address, 0x08, 0x16, 0x40),
        Query::Energy { period_id, month, tariff } => read_frame(
            address,
            0x05,
            energy_param(period_id, month),
            tariff,
        ),
    }
}

/// What came of one exchange: the reply, or why there is none.
pub type Heard = Result<Seq<u8>, Fault>;

/// An exchange's outcome with its bytes as a sequence.
pub open spec fn heard(reply: Result<Vec<u8>, MeterError>) -> Heard {
    match reply {
        Ok(bytes) => Ok(bytes@),
        Err(error) => Err(error@),
    }
}

/// The `i`th of the replies so far, if it could be decoded.
pub open spec fn answer<T>(
    replies: Seq<Heard>,
    i: int,
    decode: spec_fn(Seq<u8>) -> Result<T, Fault>,
) -> Option<T> {
    if 0 <= i < replies.len() {
        match replies[i] {
            Ok(resp) => match decode(resp) {
                Ok(value) => Some(value),
                Err(_) => None,
            },
            Err(_) => None,
        }
    } else {
        None
    }
}

/// Phases that were read, or none.
pub open spec fn phase_data(raw: Option<PhaseDataRaw>) -> PhaseData {
    match raw {
        Some(v) => PhaseData { p1: Some(v.p1), p2: Some(v.p2), p3: Some(v.p3) },
        None => PhaseData { p1: None, p2: None, p3: None },
    }
}

/// Phases and their sum that were read, or none.
pub open spec fn sum_phase_data(raw: Option<SumPhaseDataRaw>) -> SumPhaseData {
    match raw {
        Some(v) => SumPhaseData {
            sum: Some(v.sum),
            p1: Some(v.p1),
            p2: Some(v.p2),
            p3: Some(v.p3),
        },
        None => SumPhaseData { sum: None, p1: None, p2: None, p3: None },
    }
}

/// The active energy taken, if the counters were read.
pub open spec fn active_energy(raw: Option<PowerCounterRaw>) -> Option<Reading> {
    match raw {
        Some(w) => Some(w.ap),
        None => None,
    }
}

/// The snapshot that the replies so far make up.
pub open spec fn snapshot_of(replies: Seq<Heard>) -> FullMeterSnapshot {
    FullMeterSnapshot {
        voltage: phase_data(answer(replies, 0, |r| voltage_of(r))),
        current: phase_data(answer(replies, 1, |r| current_of(r))),
        cos_f: sum_phase_data(answer(replies, 2, |r| cos_f_of(r))),
        active_power: sum_phase_data(answer(replies, 3, |r| active_power_of(r))),
        reactive_power: sum_phase_data(answer(replies, 4, |r| reactive_power_of(r))),
        frequency: answer(replies, 5, |r| frequency_in(r)),
        phase_angles: phase_data(None),
        total_consumed_kw: active_energy(answer(replies, 6, |r| energy_of(r))),
        tariff_day_kw: active_energy(answer(replies, 7, |r| energy_of(r))),
        tariff_night_kw: active_energy(answer(replies, 8, |r| energy_of(r))),
        yesterday_kw: active_energy(answer(replies, 9, |r| energy_of(r))),
        today_kw: active_energy(answer(replies, 10, |r| energy_of(r))),
    }
}

/// Why a parameter could not be read from what was heard, if it could not.
pub open spec fn fault_in(query: Query, reply: Heard) -> Option<Fault> {
    match reply {
        Err(fault) => Some(fault),
        Ok(resp) => match query {
            Query::Voltage => fault_of(voltage_of(resp)),
            Query::Current => fault_of(current_of(resp)),
            Query::CosF => fault_of(cos_f_of(resp)),
            Query::ActivePower => fault_of(active_power_of(resp)),
            Query::ReactivePower => fault_of(reactive_power_of(resp)),
            Query::Frequency => fault_of(frequency_in(resp)),
            Query::Energy { .. } => fault_of(energy_of(resp)),
        },
    }
}

/// The fault of a failed result.
pub open spec fn fault_of<T>(result: Result<T, Fault>) -> Option<Fault> {
    match result {
        Ok(_) => None,
        Err(fault) => Some(fault),
    }
}

/// A polling cycle under way.
pub struct Collector {
    meter: MercuryMeter,
    step: usize,
    snapshot: FullMeterSnapshot,
    replies: Ghost<Seq<Heard>>,
}

impl Collector {
    /// The meter that is polled.
    pub closed spec fn polls(&self) -> MercuryMeter {
        self.meter
    }

    /// What was heard so far.
    pub closed spec fn replies(&self) -> Seq<Heard> {
        self.replies@
    }

    #[verifier::type_invariant]
    closed spec fn well_formed(self) -> bool {
        &&& self.step == self.replies@.len()
        &&& self.step <= CYCLE_LENGTH
        &&& self.snapshot == snapshot_of(self.replies@)
    }

    /// A cycle that has not asked for anything yet.
    pub fn new(meter: MercuryMeter) -> (collector: Collector)
        ensures
            collector.polls() == meter,
            collector.replies() == Seq::<Heard>::empty(),
    {
        let phases: PhaseData = PhaseData { p1: None, p2: None, p3: None };
        let sums: SumPhaseData = SumPhaseData { sum: None, p1: None, p2: None, p3: None };
        let snapshot: FullMeterSnapshot = FullMeterSnapshot {
            voltage: phases,
            current: phases,
            cos_f: sums,
            frequency: None,
            phase_angles: phases,
            active_power: sums,
            reactive_power: sums,
            total_consumed_kw: None,
            tariff_day_kw: None,
            tariff_night_kw: None,
            yesterday_kw: None,
            today_kw: None,
        };
        Collector { meter, step: 0, snapshot, replies: Ghost(Seq::empty()) }
    }

    /// The parameter to ask for next, unless the cycle is complete.
    pub fn query(&self) -> (query: Option<Query>)
        ensures
            query == if self.replies().len() < CYCLE_LENGTH {
                Some(cycle()[self.replies().len() as int])
            } else {
                None
            },
            query is Some <==> self.replies().len() < 11,
            query matches Some(q) ==> {
                &&& self.replies().len() == 0 ==> q is Voltage
                &&& self.replies().len() == 1 ==> q is Current
                &&& self.replies().len() == 2 ==> q is CosF
                &&& self.replies().len() == 3 ==> q is ActivePower
                &&& self.replies().len() == 4 ==> q is ReactivePower
                &&& self.replies().len() == 5 ==> q is Frequency
                &&& self.replies().len() == 6
                    ==> q == (Query::Energy { period_id: 0, month: 0, tariff: 0 })
                &&& self.replies().len() == 7
                    ==> q == (Query::Energy { period_id: 0, month: 0, tariff: 1 })
                &&& self.replies().len() == 8
                    ==> q == (Query::Energy { period_id: 0, month: 0, tariff: 2 })
                &&& self.replies().len() == 9
                    ==> q == (Query::Energy { period_id: 5, month: 0, tariff: 0 })
                &&& self.replies().len() == 10
                    ==> q == (Query::Energy { period_id: 4, month: 0, tariff: 0 })
            },
    {
        proof {
            use_type_invariant(self);
        }
        match self.step {
            0 => Some(Query::Voltage),
            1 => Some(Query::Current),
            2 => Some(Query::CosF),
            3 => Some(Query::ActivePower),
            4 => Some(Query::ReactivePower),
            5 => Some(Query::Frequency),
            6 => Some(Query::Energy { period_id: 0, month: 0, tariff: 0 }),
            7 => Some(Query::Energy { period_id: 0, month: 0, tariff: 1 }),
            8 => Some(Query::Energy { period_id: 0, month: 0, tariff: 2 }),
            9 => Some(Query::Energy { period_id: 5, month: 0, tariff: 0 }),
            10 => Some(Query::Energy { period_id: 4, month: 0, tariff: 0 }),
            _ => None,
        }
    }

    /// The command to send next, unless the cycle is complete.
    pub fn command(&self) -> (command: Option<Vec<u8>>)
        ensures
            match command {
                Some(bytes) => self.replies().len() < CYCLE_LENGTH && bytes@ == query_frame(
                    self.polls().address,
                    cycle()[self.replies().len() as int],
                ),
                None => self.replies().len() >= CYCLE_LENGTH,
            },
            command is Some <==> self.replies().len() < 11,
            command matches Some(bytes) ==> {
                &&& bytes@.len() == 6
                &&& bytes@[0] == self.polls().address
                &&& self.replies().len() == 0
                    ==> bytes@[1] == 0x08 && bytes@[2] == 0x16 && bytes@[3]
                    == 0x11
                &&& self.replies().len() == 1
                    ==> bytes@[1] == 0x08 && bytes@[2] == 0x16 && bytes@[3]
                    == 0x21
                &&& self.replies().len() == 2
                    ==> bytes@[1] == 0x08 && bytes@[2] == 0x16 && bytes@[3]
                    == 0x30
                &&& self.replies().len() == 3
                    ==> bytes@[1] == 0x08 && bytes@[2] == 0x16 && bytes@[3]
                    == 0x00
                &&& self.replies().len() == 4
                    ==> bytes@[1] == 0x08 && bytes@[2] == 0x16 && bytes@[3]
                    == 0x08
                &&& self.replies().len() == 5
                    ==> bytes@[1] == 0x08 && bytes@[2] == 0x16 && bytes@[3]
                    == 0x40
                &&& self.replies().len() == 6
                    ==> bytes@[1] == 0x05 && bytes@[2] == 0x00 && bytes@[3]
                    == 0x00
                &&& self.replies().len() == 7
                    ==> bytes@[1] == 0x05 && bytes@[2] == 0x00 && bytes@[3]
                    == 0x01
                &&& self.replies().len() == 8
                    ==> bytes@[1] == 0x05 && bytes@[2] == 0x00 && bytes@[3]
                    == 0x02
                &&& self.replies().len() == 9
                    ==> bytes@[1] == 0x05 && bytes@[2] == 0x50 && bytes@[3]
                    == 0x00
                &&& self.replies().len() == 10
                    ==> bytes@[1] == 0x05 && bytes@[2] == 0x40 && bytes@[3]
                    == 0x00
                &&& crc16(bytes@) == 0
            },
    {
        match self.query() {
            None => None,
            Some(Query::Voltage) => Some(self.meter.get_u_cmd()),
            Some(Query::Current) => Some(self.meter.get_i_cmd()),
            Some(Query::CosF) => Some(self.meter.get_cos_f_cmd()),
            Some(Query::ActivePower) => Some(self.meter.get_p_cmd()),
            Some(Query::ReactivePower) => Some(self.meter.get_s_cmd()),
            Some(Query::Frequency) => Some(self.meter.get_f_cmd()),
            Some(Query::Energy { period_id, month, tariff }) => Some(
                self.meter.get_w_cmd(period_id, month, tariff),
            ),
        }
    }

    /// The cycle after the outcome of the exchange it asked for, and why that
    /// parameter could not be read, if it could not.
    pub fn absorb(self, reply: Result<Vec<u8>, MeterError>) -> (after: (
        Collector,
        Option<MeterError>,
    ))
        requires
            self.replies().len() < CYCLE_LENGTH,
        ensures
            after.0.polls() == self.polls(),
            after.0.replies() == self.replies().push(heard(reply)),
            match after.1 {
                Some(error) => fault_in(
                    cycle()[self.replies().len() as int],
                    heard(reply),
                ) == Some(error@),
                None => fault_in(
                    cycle()[self.replies().len() as int],
                    heard(reply),
                ) == None::<Fault>,
            },
            after.0.replies().len() == self.replies().len() + 1,
            forall|i: int|
                0 <= i < self.replies().len() ==> #[trigger] after.0.replies()[i]
                    == self.replies()[i],
            match reply {
                Err(error) => {
                    &&& after.0.replies()[self.replies().len() as int] == Err::<Seq<u8>, Fault>(
                        error@,
                    )
                    &&& after.1 == Some(error)
                },
                Ok(bytes) => {
                    &&& after.0.replies()[self.replies().len() as int] == Ok::<Seq<u8>, Fault>(
                        bytes@,
                    )
                    &&& self.replies().len() == 0 ==> match after.1 {
                        Some(e) => bytes@.len() < 11 && e is ShortVoltage,
                        None => bytes@.len() >= 11,
                    }
                    &&& self.replies().len() == 1 ==> match after.1 {
                        Some(e) => bytes@.len() < 11 && e is ShortReading,
                        None => bytes@.len() >= 11,
                    }
                    &&& self.replies().len() == 2 ==> match after.1 {
                        Some(e) => bytes@.len() < 14 && e is ShortCosF && e->ShortCosF_reply@ == bytes@,
                        None => bytes@.len() >= 14,
                    }
                    &&& self.replies().len() == 3 ==> match after.1 {
                        Some(e) => bytes@.len() < 14 && e is ShortReading,
                        None => bytes@.len() >= 14,
                    }
                    &&& self.replies().len() == 4 ==> match after.1 {
                        Some(e) => bytes@.len() < 14 && e is ShortReactivePower && e->ShortReactivePower_reply@ == bytes@,
                        None => bytes@.len() >= 14,
                    }
                    &&& self.replies().len() == 5 ==> match after.1 {
                        Some(e) => bytes@.len() < 4 && e is ShortReading,
                        None => bytes@.len() >= 4,
                    }
                    &&& self.replies().len() >= 6 ==> match after.1 {
                        Some(e) => bytes@.len() < 18 && e is ShortReading,
                        None => bytes@.len() >= 18,
                    }
                },
            },
    {
        proof {
            use_type_invariant(&self);
        }
        let ghost before = self.replies@;
        let ghost replies = before.push(heard(reply));
        let mut snapshot: FullMeterSnapshot = self.snapshot;
        let error: Option<MeterError> = match reply {
            Err(e) => Some(e),
            Ok(resp) => Self::record(self.step, resp.as_slice(), &mut snapshot),
        };
        proof {
            lemma_snapshot_grows(before, heard(reply));
        }
        (
            Collector { meter: self.meter, step: self.step + 1, snapshot, replies: Ghost(replies) },
            error,
        )
    }

    /// Puts what the reply to the `step`th query holds in its place.
    fn record(step: usize, resp: &[u8], snapshot: &mut FullMeterSnapshot) -> (error: Option<
        MeterError,
    >)
        requires
            step < CYCLE_LENGTH,
        ensures
            *final(snapshot) == recorded(step as int, resp@, *old(snapshot)),
            match error {
                Some(e) => fault_in(cycle()[step as int], Ok(resp@)) == Some(e@),
                None => fault_in(cycle()[step as int], Ok(resp@)) == None::<Fault>,
            },
    {
        match step {
            0 => match MercuryMeter::get_u_reply(resp) {
                Ok(v) => {
                    snapshot.voltage = Self::phases(v);
                    None
                },
                Err(e) => Some(e),
            },
            1 => match MercuryMeter::get_i_reply(resp) {
                Ok(v) => {
                    snapshot.current = Self::phases(v);
                    None
                },
                Err(e) => Some(e),
            },
            2 => match MercuryMeter::get_cos_f_reply(resp) {
                Ok(v) => {
                    snapshot.cos_f = Self::sums(v);
                    None
                },
                Err(e) => Some(e),
            },
            3 => match MercuryMeter::get_p_reply(resp) {
                Ok(v) => {
                    snapshot.active_power = Self::sums(v);
                    None
                },
                Err(e) => Some(e),
            },
            4 => match MercuryMeter::get_s_reply(resp) {
                Ok(v) => {
                    snapshot.reactive_power = Self::sums(v);
                    None
                },
                Err(e) => Some(e),
            },
            5 => {
                if resp.len() < 4 {
                    Some(MeterError::ShortReading)
                } else {
                    snapshot.frequency = Some(MercuryMeter::get_f_reply(resp));
                    None
                }
            },
            _ => match MercuryMeter::get_w_reply(resp) {
                Ok(w) => {
                    match step {
                        6 => {
                            snapshot.total_consumed_kw = Some(w.ap);
                        },
                        7 => {
                            snapshot.tariff_day_kw = Some(w.ap);
                        },
                        8 => {
                            snapshot.tariff_night_kw = Some(w.ap);
                        },
                        9 => {
                            snapshot.yesterday_kw = Some(w.ap);
                        },
                        _ => {
                            snapshot.today_kw = Some(w.ap);
                        },
                    }
                    None
                },
                Err(e) => Some(e),
            },
        }
    }

    fn phases(v: PhaseDataRaw) -> (phases: PhaseData)
        ensures
            phases == phase_data(Some(v)),
    {
        PhaseData { p1: Some(v.p1), p2: Some(v.p2), p3: Some(v.p3) }
    }

    fn sums(v: SumPhaseDataRaw) -> (sums: SumPhaseData)
        ensures
            sums == sum_phase_data(Some(v)),
    {
        SumPhaseData { sum: Some(v.sum), p1: Some(v.p1), p2: Some(v.p2), p3: Some(v.p3) }
    }

    /// The snapshot of a complete cycle.
    pub fn finish(self) -> (snapshot: Option<FullMeterSnapshot>)
        ensures
            self.replies().len() <= CYCLE_LENGTH,
            snapshot == if self.replies().len() == CYCLE_LENGTH {
                Some(snapshot_of(self.replies()))
            } else {
                None
            },
            snapshot is Some <==> self.replies().len() == 11,
            snapshot matches Some(s) ==> {
                match s.voltage {
                    PhaseData { p1: Some(p1), p2: Some(p2), p3: Some(p3) } => {
                        &&& self.replies()[0] matches Ok(r)
                        &&& r.len() >= 11
                        &&& p1.factor == 100
                        &&& p1.raw == (r[1] as int % 64) * 0x10000 + r[3] * 0x100 + r[2]
                        &&& p2.factor == 100
                        &&& p2.raw == (r[4] as int % 64) * 0x10000 + r[6] * 0x100 + r[5]
                        &&& p3.factor == 100
                        &&& p3.raw == (r[7] as int % 64) * 0x10000 + r[9] * 0x100 + r[8]
                    },
                    PhaseData { p1: None, p2: None, p3: None } => !(
                        self.replies()[0] matches Ok(r) && r.len() >= 11
                    ),
                    _ => false,
                }
            },
            snapshot matches Some(s) ==> {
                match s.current {
                    PhaseData { p1: Some(p1), p2: Some(p2), p3: Some(p3) } => {
                        &&& self.replies()[1] matches Ok(r)
                        &&& r.len() >= 11
                        &&& p1.factor == 1000
                        &&& p1.raw == (r[1] as int % 64) * 0x10000 + r[3] * 0x100 + r[2]
                        &&& p2.factor == 1000
                        &&& p2.raw == (r[4] as int % 64) * 0x10000 + r[6] * 0x100 + r[5]
                        &&& p3.factor == 1000
                        &&& p3.raw == (r[7] as int % 64) * 0x10000 + r[9] * 0x100 + r[8]
                    },
                    PhaseData { p1: None, p2: None, p3: None } => !(
                        self.replies()[1] matches Ok(r) && r.len() >= 11
                    ),
                    _ => false,
                }
            },
            snapshot matches Some(s) ==> {
                match s.cos_f {
                    SumPhaseData { sum: Some(sum), p1: Some(p1), p2: Some(p2), p3: Some(p3) } => {
                        &&& self.replies()[2] matches Ok(r)
                        &&& r.len() >= 14
                        &&& sum.factor == 1000
                        &&& sum.raw == (r[10] as int % 64) * 0x10000 + r[12] * 0x100 + r[11]
                        &&& p1.factor == 1000
                        &&& p1.raw == (r[1] as int % 64) * 0x10000 + r[3] * 0x100 + r[2]
                        &&& p2.factor == 1000
                        &&& p2.raw == (r[4] as int % 64) * 0x10000 + r[6] * 0x100 + r[5]
                        &&& p3.factor == 1000
                        &&& p3.raw == (r[7] as int % 64) * 0x10000 + r[9] * 0x100 + r[8]
                    },
                    SumPhaseData { sum: None, p1: None, p2: None, p3: None } => !(
                        self.replies()[2] matches Ok(r) && r.len() >= 14
                    ),
                    _ => false,
                }
            },
            snapshot matches Some(s) ==> {
                match s.active_power {
                    SumPhaseData { sum: Some(sum), p1: Some(p1), p2: Some(p2), p3: Some(p3) } => {
                        &&& self.replies()[3] matches Ok(r)
                        &&& r.len() >= 14
                        &&& sum.factor == 100
                        &&& sum.raw == (r[10] as int % 64) * 0x10000 + r[12] * 0x100 + r[11]
                        &&& p1.factor == 100
                        &&& p1.raw == (r[1] as int % 64) * 0x10000 + r[3] * 0x100 + r[2]
                        &&& p2.factor == 100
                        &&& p2.raw == (r[4] as int % 64) * 0x10000 + r[6] * 0x100 + r[5]
                        &&& p3.factor == 100
                        &&& p3.raw == (r[7] as int % 64) * 0x10000 + r[9] * 0x100 + r[8]
                    },
                    SumPhaseData { sum: None, p1: None, p2: None, p3: None } => !(
                        self.replies()[3] matches Ok(r) && r.len() >= 14
                    ),
                    _ => false,
                }
            },
            snapshot matches Some(s) ==> {
                match s.reactive_power {
                    SumPhaseData { sum: Some(sum), p1: Some(p1), p2: Some(p2), p3: Some(p3) } => {
                        &&& self.replies()[4] matches Ok(r)
                        &&& r.len() >= 14
                        &&& sum.factor == 100
                        &&& sum.raw == (r[10] as int % 64) * 0x10000 + r[12] * 0x100 + r[11]
                        &&& p1.factor == 100
                        &&& p1.raw == (r[1] as int % 64) * 0x10000 + r[3] * 0x100 + r[2]
                        &&& p2.factor == 100
                        &&& p2.raw == (r[4] as int % 64) * 0x10000 + r[6] * 0x100 + r[5]
                        &&& p3.factor == 100
                        &&& p3.raw == (r[7] as int % 64) * 0x10000 + r[9] * 0x100 + r[8]
                    },
                    SumPhaseData { sum: None, p1: None, p2: None, p3: None } => !(
                        self.replies()[4] matches Ok(r) && r.len() >= 14
                    ),
                    _ => false,
                }
            },
            snapshot matches Some(s) ==> {
                match s.frequency {
                    Some(value) => {
                        &&& self.replies()[5] matches Ok(r)
                        &&& r.len() >= 4
                        &&& value.factor == 100
                        &&& value.raw == r[2] + 256 * r[3]
                    },
                    None => !(self.replies()[5] matches Ok(r) && r.len() >= 4),
                }
            },
            snapshot matches Some(s) ==> {
                match s.total_consumed_kw {
                    Some(value) => {
                        &&& self.replies()[6] matches Ok(r)
                        &&& r.len() >= 18
                        &&& value.factor == 1000
                        &&& value.raw == r[2] * 0x1000000 + r[1] * 0x10000 + r[4] * 0x100 + r[3]
                    },
                    None => !(self.replies()[6] matches Ok(r) && r.len() >= 18),
                }
            },
            snapshot matches Some(s) ==> {
                match s.tariff_day_kw {
                    Some(value) => {
                        &&& self.replies()[7] matches Ok(r)
                        &&& r.len() >= 18
                        &&& value.factor == 1000
                        &&& value.raw == r[2] * 0x1000000 + r[1] * 0x10000 + r[4] * 0x100 + r[3]
                    },
                    None => !(self.replies()[7] matches Ok(r) && r.len() >= 18),
                }
            },
            snapshot matches Some(s) ==> {
                match s.tariff_night_kw {
                    Some(value) => {
                        &&& self.replies()[8] matches Ok(r)
                        &&& r.len() >= 18
                        &&& value.factor == 1000
                        &&& value.raw == r[2] * 0x1000000 + r[1] * 0x10000 + r[4] * 0x100 + r[3]
                    },
                    None => !(self.replies()[8] matches Ok(r) && r.len() >= 18),
                }
            },
            snapshot matches Some(s) ==> {
                match s.yesterday_kw {
                    Some(value) => {
                        &&& self.replies()[9] matches Ok(r)
                        &&& r.len() >= 18
                        &&& value.factor == 1000
                        &&& value.raw == r[2] * 0x1000000 + r[1] * 0x10000 + r[4] * 0x100 + r[3]
                    },
                    None => !(self.replies()[9] matches Ok(r) && r.len() >= 18),
                }
            },
            snapshot matches Some(s) ==> {
                match s.today_kw {
                    Some(value) => {
                        &&& self.replies()[10] matches Ok(r)
                        &&& r.len() >= 18
                        &&& value.factor == 1000
                        &&& value.raw == r[2] * 0x1000000 + r[1] * 0x10000 + r[4] * 0x100 + r[3]
                    },
                    None => !(self.replies()[10] matches Ok(r) && r.len() >= 18),
                }
            },
            snapshot matches Some(s) ==> s.phase_angles == (PhaseData {
                p1: None,
                p2: None,
                p3: None,
            }),
    {
        proof {
            use_type_invariant(&self);
            law_voltage_is_read(self.replies());
            law_current_is_read(self.replies());
            law_cos_f_is_read(self.replies());
            law_active_power_is_read(self.replies());
            law_reactive_power_is_read(self.replies());
            law_frequency_is_read(self.replies());
            law_total_consumed_kw_is_read(self.replies());
            law_tariff_day_kw_is_read(self.replies());
            law_tariff_night_kw_is_read(self.replies());
            law_yesterday_kw_is_read(self.replies());
            law_today_kw_is_read(self.replies());
        }
        if self.step == CYCLE_LENGTH {
            Some(self.snapshot)
        } else {
            None
        }
    }
}

/// A snapshot with one part, that of the `i`th parameter, taken from another.
pub open spec fn with_part(
    base: FullMeterSnapshot,
    i: int,
    other: FullMeterSnapshot,
) -> FullMeterSnapshot {
    if i == 0 {
        FullMeterSnapshot { voltage: other.voltage, ..base }
    } else if i == 1 {
        FullMeterSnapshot { current: other.current, ..base }
    } else if i == 2 {
        FullMeterSnapshot { cos_f: other.cos_f, ..base }
    } else if i == 3 {
        FullMeterSnapshot { active_power: other.active_power, ..base }
    } else if i == 4 {
        FullMeterSnapshot { reactive_power: other.reactive_power, ..base }
    } else if i == 5 {
        FullMeterSnapshot { frequency: other.frequency, ..base }
    } else if i == 6 {
        FullMeterSnapshot { total_consumed_kw: other.total_consumed_kw, ..base }
    } else if i == 7 {
        FullMeterSnapshot { tariff_day_kw: other.tariff_day_kw, ..base }
    } else if i == 8 {
        FullMeterSnapshot { tariff_night_kw: other.tariff_night_kw, ..base }
    } else if i == 9 {
        FullMeterSnapshot { yesterday_kw: other.yesterday_kw, ..base }
    } else {
        FullMeterSnapshot { today_kw: other.today_kw, ..base }
    }
}

/// The snapshot after the reply to the `step`th query: what the reply holds stands
/// in its place, and nothing is changed by one that cannot be decoded.
spec fn recorded(step: int, resp: Seq<u8>, before: FullMeterSnapshot) -> FullMeterSnapshot {
    if fault_in(cycle()[step], Ok(resp)) is Some {
        before
    } else {
        with_part(
            before,
            step,
            snapshot_of(Seq::new(CYCLE_LENGTH as nat, |i: int| Ok::<Seq<u8>, Fault>(resp))),
        )
    }
}

/// One more reply changes the snapshot as it is recorded.
#[verifier::spinoff_prover]
#[verifier::rlimit(40)]
proof fn lemma_snapshot_grows(before: Seq<Heard>, reply: Heard)
    requires
        before.len() < CYCLE_LENGTH,
    ensures
        snapshot_of(before.push(reply)) == match reply {
            Ok(resp) => recorded(before.len() as int, resp, snapshot_of(before)),
            Err(_) => snapshot_of(before),
        },
{
    let n = before.len() as int;
    law_cycle_fills_in_order(before, reply);
    match reply {
        Ok(resp) => {
            let all = Seq::new(CYCLE_LENGTH as nat, |i: int| Ok::<Seq<u8>, Fault>(resp));
            assert(all[n] == before.push(reply)[n]);
        },
        Err(_) => {},
    }
}

/// The snapshot in which nothing was read.
pub open spec fn blank() -> FullMeterSnapshot {
    snapshot_of(Seq::empty())
}

/// What a reply does to a snapshot stays in the part of its own parameter: with
/// another reply in its place, everything else is read as before.
#[verifier::spinoff_prover]
#[verifier::rlimit(40)]
pub proof fn law_reply_stays_in_its_part(replies: Seq<Heard>, i: int, reply: Heard)
    requires
        0 <= i < replies.len() <= CYCLE_LENGTH,
    ensures
        snapshot_of(replies.update(i, reply)) == with_part(
            snapshot_of(replies),
            i,
            snapshot_of(replies.update(i, reply)),
        ),
{
}

/// A parameter that could not be read is left empty, and only that.
pub proof fn law_failed_part_is_blank(replies: Seq<Heard>, i: int)
    requires
        0 <= i < replies.len() <= CYCLE_LENGTH,
        fault_in(cycle()[i], replies[i]) is Some,
    ensures
        snapshot_of(replies) == with_part(snapshot_of(replies), i, blank()),
{
}

/// A reply too short for a frequency takes the frequency out of a cycle, and nothing
/// else.
pub proof fn law_short_frequency_is_left_out(replies: Seq<Heard>, resp: Seq<u8>)
    requires
        5 < replies.len() <= CYCLE_LENGTH,
        resp.len() < 4,
    ensures
        snapshot_of(replies.update(5, Ok(resp))) == (FullMeterSnapshot {
            frequency: None,
            ..snapshot_of(replies)
        }),
{
    law_reply_stays_in_its_part(replies, 5, Ok(resp));
}

/// A reply that has not come yet leaves its part empty, and a new reply changes
/// that part alone.
pub proof fn law_cycle_fills_in_order(replies: Seq<Heard>, reply: Heard)
    requires
        replies.len() < CYCLE_LENGTH,
    ensures
        snapshot_of(replies) == with_part(snapshot_of(replies), replies.len() as int, blank()),
        snapshot_of(replies.push(reply)) == with_part(
            snapshot_of(replies),
            replies.len() as int,
            snapshot_of(replies.push(reply)),
        ),
{
}

/// The voltages of a snapshot are the three-byte numbers in bytes 1, 4 and 7 of the reply
/// to the first query, over 100, when that reply has eleven bytes or more. Otherwise there are
/// none.
pub proof fn law_voltage_is_read(replies: Seq<Heard>)
    ensures
        match snapshot_of(replies).voltage {
            PhaseData { p1: Some(p1), p2: Some(p2), p3: Some(p3) } => {
                &&& replies.len() > 0
                &&& replies[0] matches Ok(r)
                &&& r.len() >= 11
                &&& p1.factor == 100
                &&& p1.raw == (r[1] as int % 64) * 0x10000 + r[3] * 0x100 + r[2]
                &&& p2.factor == 100
                &&& p2.raw == (r[4] as int % 64) * 0x10000 + r[6] * 0x100 + r[5]
                &&& p3.factor == 100
                &&& p3.raw == (r[7] as int % 64) * 0x10000 + r[9] * 0x100 + r[8]
            },
            PhaseData { p1: None, p2: None, p3: None } => !(
                replies.len() > 0 && (replies[0] matches Ok(r) && r.len() >= 11)
            ),
            _ => false,
        },
{
}

/// The currents of a snapshot are the three-byte numbers in bytes 1, 4 and 7 of the reply
/// to the second query, over 1000, when that reply has eleven bytes or more. Otherwise there are
/// none.
pub proof fn law_current_is_read(replies: Seq<Heard>)
    ensures
        match snapshot_of(replies).current {
            PhaseData { p1: Some(p1), p2: Some(p2), p3: Some(p3) } => {
                &&& replies.len() > 1
                &&& replies[1] matches Ok(r)
                &&& r.len() >= 11
                &&& p1.factor == 1000
                &&& p1.raw == (r[1] as int % 64) * 0x10000 + r[3] * 0x100 + r[2]
                &&& p2.factor == 1000
                &&& p2.raw == (r[4] as int % 64) * 0x10000 + r[6] * 0x100 + r[5]
                &&& p3.factor == 1000
                &&& p3.raw == (r[7] as int % 64) * 0x10000 + r[9] * 0x100 + r[8]
            },
            PhaseData { p1: None, p2: None, p3: None } => !(
                replies.len() > 1 && (replies[1] matches Ok(r) && r.len() >= 11)
            ),
            _ => false,
        },
{
}

/// The power factors of a snapshot are the three-byte numbers in bytes 1, 4 and 7 of the
/// reply to the third query, and the total is that in byte 10, all over 1000, when that
/// reply has fourteen bytes or more. Otherwise there are none.
pub proof fn law_cos_f_is_read(replies: Seq<Heard>)
    ensures
        match snapshot_of(replies).cos_f {
            SumPhaseData { sum: Some(sum), p1: Some(p1), p2: Some(p2), p3: Some(p3) } => {
                &&& replies.len() > 2
                &&& replies[2] matches Ok(r)
                &&& r.len() >= 14
                &&& sum.factor == 1000
                &&& sum.raw == (r[10] as int % 64) * 0x10000 + r[12] * 0x100 + r[11]
                &&& p1.factor == 1000
                &&& p1.raw == (r[1] as int % 64) * 0x10000 + r[3] * 0x100 + r[2]
                &&& p2.factor == 1000
                &&& p2.raw == (r[4] as int % 64) * 0x10000 + r[6] * 0x100 + r[5]
                &&& p3.factor == 1000
                &&& p3.raw == (r[7] as int % 64) * 0x10000 + r[9] * 0x100 + r[8]
            },
            SumPhaseData { sum: None, p1: None, p2: None, p3: None } => !(
                replies.len() > 2 && (replies[2] matches Ok(r) && r.len() >= 14)
            ),
            _ => false,
        },
{
}

/// The active powers of a snapshot are the three-byte numbers in bytes 1, 4 and 7 of the
/// reply to the fourth query, and the total is that in byte 10, all over 100, when that
/// reply has fourteen bytes or more. Otherwise there are none.
pub proof fn law_active_power_is_read(replies: Seq<Heard>)
    ensures
        match snapshot_of(replies).active_power {
            SumPhaseData { sum: Some(sum), p1: Some(p1), p2: Some(p2), p3: Some(p3) } => {
                &&& replies.len() > 3
                &&& replies[3] matches Ok(r)
                &&& r.len() >= 14
                &&& sum.factor == 100
                &&& sum.raw == (r[10] as int % 64) * 0x10000 + r[12] * 0x100 + r[11]
                &&& p1.factor == 100
                &&& p1.raw == (r[1] as int % 64) * 0x10000 + r[3] * 0x100 + r[2]
                &&& p2.factor == 100
                &&& p2.raw == (r[4] as int % 64) * 0x10000 + r[6] * 0x100 + r[5]
                &&& p3.factor == 100
                &&& p3.raw == (r[7] as int % 64) * 0x10000 + r[9] * 0x100 + r[8]
            },
            SumPhaseData { sum: None, p1: None, p2: None, p3: None } => !(
                replies.len() > 3 && (replies[3] matches Ok(r) && r.len() >= 14)
            ),
            _ => false,
        },
{
}

/// The reactive powers of a snapshot are the three-byte numbers in bytes 1, 4 and 7 of the
/// reply to the fifth query, and the total is that in byte 10, all over 100, when that
/// reply has fourteen bytes or more. Otherwise there are none.
pub proof fn law_reactive_power_is_read(replies: Seq<Heard>)
    ensures
        match snapshot_of(replies).reactive_power {
            SumPhaseData { sum: Some(sum), p1: Some(p1), p2: Some(p2), p3: Some(p3) } => {
                &&& replies.len() > 4
                &&& replies[4] matches Ok(r)
                &&& r.len() >= 14
                &&& sum.factor == 100
                &&& sum.raw == (r[10] as int % 64) * 0x10000 + r[12] * 0x100 + r[11]
                &&& p1.factor == 100
                &&& p1.raw == (r[1] as int % 64) * 0x10000 + r[3] * 0x100 + r[2]
                &&& p2.factor == 100
                &&& p2.raw == (r[4] as int % 64) * 0x10000 + r[6] * 0x100 + r[5]
                &&& p3.factor == 100
                &&& p3.raw == (r[7] as int % 64) * 0x10000 + r[9] * 0x100 + r[8]
            },
            SumPhaseData { sum: None, p1: None, p2: None, p3: None } => !(
                replies.len() > 4 && (replies[4] matches Ok(r) && r.len() >= 14)
            ),
            _ => false,
        },
{
}

/// The frequency of a snapshot is the number in bytes 2 and 3 of the reply to the sixth
/// query, the lower byte first, over 100, when that reply has four bytes or more.
/// Otherwise there is none.
pub proof fn law_frequency_is_read(replies: Seq<Heard>)
    ensures
        match snapshot_of(replies).frequency {
            Some(value) => {
                &&& replies.len() > 5
                &&& replies[5] matches Ok(r)
                &&& r.len() >= 4
                &&& value.factor == 100
                &&& value.raw == r[2] + 256 * r[3]
            },
            None => !(replies.len() > 5 && (replies[5] matches Ok(r) && r.len() >= 4)),
        },
{
}

/// The total energy of a snapshot is the four-byte number in bytes 1 to 4 of the
/// reply to the seventh query, over 1000, when that reply has eighteen bytes or more, whatever
/// the bytes behind hold. Otherwise there is none.
pub proof fn law_total_consumed_kw_is_read(replies: Seq<Heard>)
    ensures
        match snapshot_of(replies).total_consumed_kw {
            Some(value) => {
                &&& replies.len() > 6
                &&& replies[6] matches Ok(r)
                &&& r.len() >= 18
                &&& value.factor == 1000
                &&& value.raw == r[2] * 0x1000000 + r[1] * 0x10000 + r[4] * 0x100 + r[3]
            },
            None => !(replies.len() > 6 && (replies[6] matches Ok(r) && r.len() >= 18)),
        },
{
}

/// The energy at the day tariff of a snapshot is the four-byte number in bytes 1 to 4 of the
/// reply to the eighth query, over 1000, when that reply has eighteen bytes or more, whatever
/// the bytes behind hold. Otherwise there is none.
pub proof fn law_tariff_day_kw_is_read(replies: Seq<Heard>)
    ensures
        match snapshot_of(replies).tariff_day_kw {
            Some(value) => {
                &&& replies.len() > 7
                &&& replies[7] matches Ok(r)
                &&& r.len() >= 18
                &&& value.factor == 1000
                &&& value.raw == r[2] * 0x1000000 + r[1] * 0x10000 + r[4] * 0x100 + r[3]
            },
            None => !(replies.len() > 7 && (replies[7] matches Ok(r) && r.len() >= 18)),
        },
{
}

/// The energy at the night tariff of a snapshot is the four-byte number in bytes 1 to 4 of the
/// reply to the ninth query, over 1000, when that reply has eighteen bytes or more, whatever
/// the bytes behind hold. Otherwise there is none.
pub proof fn law_tariff_night_kw_is_read(replies: Seq<Heard>)
    ensures
        match snapshot_of(replies).tariff_night_kw {
            Some(value) => {
                &&& replies.len() > 8
                &&& replies[8] matches Ok(r)
                &&& r.len() >= 18
                &&& value.factor == 1000
                &&& value.raw == r[2] * 0x1000000 + r[1] * 0x10000 + r[4] * 0x100 + r[3]
            },
            None => !(replies.len() > 8 && (replies[8] matches Ok(r) && r.len() >= 18)),
        },
{
}

/// The energy of yesterday of a snapshot is the four-byte number in bytes 1 to 4 of the
/// reply to the tenth query, over 1000, when that reply has eighteen bytes or more, whatever
/// the bytes behind hold. Otherwise there is none.
pub proof fn law_yesterday_kw_is_read(replies: Seq<Heard>)
    ensures
        match snapshot_of(replies).yesterday_kw {
            Some(value) => {
                &&& replies.len() > 9
                &&& replies[9] matches Ok(r)
                &&& r.len() >= 18
                &&& value.factor == 1000
                &&& value.raw == r[2] * 0x1000000 + r[1] * 0x10000 + r[4] * 0x100 + r[3]
            },
            None => !(replies.len() > 9 && (replies[9] matches Ok(r) && r.len() >= 18)),
        },
{
}

/// The energy of today of a snapshot is the four-byte number in bytes 1 to 4 of the
/// reply to the eleventh query, over 1000, when that reply has eighteen bytes or more, whatever
/// the bytes behind hold. Otherwise there is none.
pub proof fn law_today_kw_is_read(replies: Seq<Heard>)
    ensures
        match snapshot_of(replies).today_kw {
            Some(value) => {
                &&& replies.len() > 10
                &&& replies[10] matches Ok(r)
                &&& r.len() >= 18
                &&& value.factor == 1000
                &&& value.raw == r[2] * 0x1000000 + r[1] * 0x10000 + r[4] * 0x100 + r[3]
            },
            None => !(replies.len() > 10 && (replies[10] matches Ok(r) && r.len() >= 18)),
        },
{
}

/// Why a parameter could not be read, in terms of the reply's length: an exchange that
/// failed gives its own fault, a reply that is too short that of its parameter, and any
/// other reply none.
pub proof fn law_fault_by_length(query: Query, resp: Seq<u8>, fault: Fault)
    ensures
        fault_in(query, Err(fault)) == Some(fault),
        match query {
            Query::Voltage => {
                &&& resp.len() < 11 ==> fault_in(query, Ok(resp)) == Some(Fault::ShortVoltage)
                &&& resp.len() >= 11 ==> fault_in(query, Ok(resp)) == None::<Fault>
            },
            Query::Current => {
                &&& resp.len() < 11 ==> fault_in(query, Ok(resp)) == Some(Fault::ShortReading)
                &&& resp.len() >= 11 ==> fault_in(query, Ok(resp)) == None::<Fault>
            },
            Query::CosF => {
                &&& resp.len() < 14
                    ==> fault_in(query, Ok(resp)) == Some(Fault::ShortCosF { reply: resp })
                &&& resp.len() >= 14 ==> fault_in(query, Ok(resp)) == None::<Fault>
            },
            Query::ActivePower => {
                &&& resp.len() < 14 ==> fault_in(query, Ok(resp)) == Some(Fault::ShortReading)
                &&& resp.len() >= 14 ==> fault_in(query, Ok(resp)) == None::<Fault>
            },
            Query::ReactivePower => {
                &&& resp.len() < 14
                    ==> fault_in(query, Ok(resp)) == Some(Fault::ShortReactivePower { reply: resp })
                &&& resp.len() >= 14 ==> fault_in(query, Ok(resp)) == None::<Fault>
            },
            Query::Frequency => {
                &&& resp.len() < 4 ==> fault_in(query, Ok(resp)) == Some(Fault::ShortReading)
                &&& resp.len() >= 4 ==> fault_in(query, Ok(resp)) == None::<Fault>
            },
            Query::Energy { .. } => {
                &&& resp.len() < 18 ==> fault_in(query, Ok(resp)) == Some(Fault::ShortReading)
                &&& resp.len() >= 18 ==> fault_in(query, Ok(resp)) == None::<Fault>
            },
        },
{
}

/// A query goes to the meter as four bytes and their checksum: the meter's address, the
/// command, which is five for the energies and eight for the rest, and what is asked for.
pub proof fn law_query_by_bytes(address: u8, query: Query)
    ensures
        query_frame(address, query).len() == 6,
        query_frame(address, query)[0] == address,
        query_frame(address, query)[1] == if query is Energy {
            0x05
        } else {
            0x08int
        },
        match query {
            Query::Energy { period_id, month, tariff } => {
                &&& query_frame(address, query)[2] == (period_id as int % 16) * 16 + month as int
                    % 16
                &&& query_frame(address, query)[3] == tariff
            },
            _ => query_frame(address, query)[2] == 0x16,
        },
        query is Voltage ==> query_frame(address, query)[3] == 0x11,
        query is Current ==> query_frame(address, query)[3] == 0x21,
        query is CosF ==> query_frame(address, query)[3] == 0x30,
        query is ActivePower ==> query_frame(address, query)[3] == 0x00,
        query is ReactivePower ==> query_frame(address, query)[3] == 0x08,
        query is Frequency ==> query_frame(address, query)[3] == 0x40,
        crc16(query_frame(address, query)) == 0,
{
    match query {
        Query::Energy { period_id, month, tariff } => law_read_frame_layout(
            address,
            0x05,
            energy_param(period_id, month),
            tariff,
        ),
        Query::Voltage => law_read_frame_layout(address, 0x08, 0x16, 0x11),
        Query::Current => law_read_frame_layout(address, 0x08, 0x16, 0x21),
        Query::CosF => law_read_frame_layout(address, 0x08, 0x16, 0x30),
        Query::ActivePower => law_read_frame_layout(address, 0x08, 0x16, 0x00),
        Query::ReactivePower => law_read_frame_layout(address, 0x08, 0x16, 0x08),
        Query::Frequency => law_read_frame_layout(address, 0x08, 0x16, 0x40),
    }
}

/// The phase angles are never reported.
pub proof fn law_no_phase_angles(replies: Seq<Heard>)
    ensures
        snapshot_of(replies).phase_angles == (PhaseData { p1: None, p2: None, p3: None }),
{
}

} // verus!
