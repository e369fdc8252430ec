//! The meter itself: the commands it understands and the replies it gives.

use vstd::prelude::*;
use vstd::slice::slice_to_vec;

use crate::crc::crc16;
use crate::decode::{reading3, reading4, Reading};
use crate::error::{seen, Fault, MeterError};
use crate::frame::{
    body_crc, carried_crc, framed, intact, law_damage_is_detected, law_sealed_is_intact,
    law_sealed_layout, seal, word,
};

verus! {

/// A meter on the serial line, known by its network address.
#[derive(Debug, Clone, Copy, PartialEq, Eq, Structural)]
pub struct MercuryMeter {
    pub address: u8,
}

/// A command that reads a parameter. The checksum is computed when the command is
/// prepared for the line; what stands in `crc` before that does not matter.
#[derive(Debug, Clone, Copy, PartialEq, Eq, Structural)]
pub struct ReadParamCmd {
    pub address: u8,
    pub command: u8,
    pub param_id: u8,
    pub bwri: u8,
    pub crc: u16,
}

/// One reading for each phase.
#[derive(Debug, Clone, Copy, PartialEq, Eq, Structural)]
pub struct PhaseDataRaw {
    pub p1: Reading,
    pub p2: Reading,
    pub p3: Reading,
}

/// One reading for each phase and one for all of them.
#[derive(Debug, Clone, Copy, PartialEq, Eq, Structural)]
pub struct SumPhaseDataRaw {
    pub sum: Reading,
    pub p1: Reading,
    pub p2: Reading,
    pub p3: Reading,
}

/// The four energy counters: active and reactive, taken and given.
#[derive(Debug, Clone, Copy, PartialEq, Eq, Structural)]
pub struct PowerCounterRaw {
    pub ap: Reading,
    pub am: Reading,
    pub rp: Reading,
    pub rm: Reading,
}

/// The frame of a four-byte read command.
pub open spec fn read_frame(address: u8, command: u8, param_id: u8, bwri: u8) -> Seq<u8> {
    framed(seq![address, command, param_id, bwri])
}

/// The frame that asks whether the meter is there.
pub open spec fn check_frame(address: u8) -> Seq<u8> {
    framed(seq![address, 0x00])
}

/// The frame that opens a session with the first access level and its password of
/// six ones.
pub open spec fn init_frame(address: u8) -> Seq<u8> {
    framed(seq![address, 0x01, 0x01, 0x01, 0x01, 0x01, 0x01, 0x01, 0x01])
}

/// The parameter byte of an energy command: the period above, the month below,
/// four bits of each.
pub open spec fn energy_param(period_id: u8, month: u8) -> u8 {
    ((period_id as int % 16) * 16 + month as int % 16) as u8
}

/// What a reply says about the connection.
pub open spec fn check_verdict(resp: Seq<u8>) -> Result<(), Fault> {
    if resp.len() < 4 {
        Err(Fault::ShortCheck)
    } else if body_crc(resp) != carried_crc(resp) {
        Err(Fault::CrcMismatch { computed: body_crc(resp), carried: carried_crc(resp) })
    } else if resp[1] % 16 != 0 {
        Err(Fault::ErrorCode { code: resp[1] % 16 })
    } else {
        Ok(())
    }
}

/// What a reply says about the opening of a session.
pub open spec fn init_verdict(resp: Seq<u8>) -> Result<(), Fault> {
    if resp.len() < 4 {
        Err(Fault::ShortInit { reply: resp })
    } else if resp[1] % 16 != 0 {
        Err(Fault::Refused { status: resp[1], reply: resp })
    } else {
        Ok(())
    }
}

/// The reading in the three bytes of `resp` from `at` on.
pub open spec fn three_at(resp: Seq<u8>, at: int, factor: u32) -> Reading {
    reading3(resp.subrange(at, at + 3), factor)
}

/// The reading in the four bytes of `resp` from `at` on.
pub open spec fn four_at(resp: Seq<u8>, at: int, factor: u32) -> Reading {
    reading4(resp.subrange(at, at + 4), factor)
}

/// Three readings behind the address byte.
pub open spec fn phases(resp: Seq<u8>, factor: u32) -> PhaseDataRaw {
    PhaseDataRaw {
        p1: three_at(resp, 1, factor),
        p2: three_at(resp, 4, factor),
        p3: three_at(resp, 7, factor),
    }
}

/// Four readings behind the address byte, that of all phases last.
pub open spec fn phases_and_sum(resp: Seq<u8>, factor: u32) -> SumPhaseDataRaw {
    SumPhaseDataRaw {
        p1: three_at(resp, 1, factor),
        p2: three_at(resp, 4, factor),
        p3: three_at(resp, 7, factor),
        sum: three_at(resp, 10, factor),
    }
}

/// Voltages, in hundredths of a volt.
pub open spec fn voltage_of(resp: Seq<u8>) -> Result<PhaseDataRaw, Fault> {
    if resp.len() < 11 {
        Err(Fault::ShortVoltage)
    } else {
        Ok(phases(resp, 100))
    }
}

/// Currents, in thousandths of an ampere.
pub open spec fn current_of(resp: Seq<u8>) -> Result<PhaseDataRaw, Fault> {
    if resp.len() < 11 {
        Err(Fault::ShortReading)
    } else {
        Ok(phases(resp, 1000))
    }
}

/// Power factors, in thousandths.
pub open spec fn cos_f_of(resp: Seq<u8>) -> Result<SumPhaseDataRaw, Fault> {
    if resp.len() < 14 {
        Err(Fault::ShortCosF { reply: resp })
    } else {
        Ok(phases_and_sum(resp, 1000))
    }
}

/// Active power, in hundredths of a watt.
pub open spec fn active_power_of(resp: Seq<u8>) -> Result<SumPhaseDataRaw, Fault> {
    if resp.len() < 14 {
        Err(Fault::ShortReading)
    } else {
        Ok(phases_and_sum(resp, 100))
    }
}

/// Reactive power, in hundredths of a var.
pub open spec fn reactive_power_of(resp: Seq<u8>) -> Result<SumPhaseDataRaw, Fault> {
    if resp.len() < 14 {
        Err(Fault::ShortReactivePower { reply: resp })
    } else {
        Ok(phases_and_sum(resp, 100))
    }
}

/// The frequency, in hundredths of a hertz.
pub open spec fn frequency_of(resp: Seq<u8>) -> Reading {
    Reading { raw: word(resp[2], resp[3]) as u32, factor: 100 }
}

/// The frequency, if the reply is long enough to hold it.
pub open spec fn frequency_in(resp: Seq<u8>) -> Result<Reading, Fault> {
    if resp.len() < 4 {
        Err(Fault::ShortReading)
    } else {
        Ok(frequency_of(resp))
    }
}

/// Energy counters, in thousandths of a kilowatt hour.
pub open spec fn energy_of(resp: Seq<u8>) -> Result<PowerCounterRaw, Fault> {
    if resp.len() < 18 {
        Err(Fault::ShortReading)
    } else {
        Ok(
            PowerCounterRaw {
                ap: four_at(resp, 1, 1000),
                am: four_at(resp, 5, 1000),
                rp: four_at(resp, 9, 1000),
                rm: four_at(resp, 13, 1000),
            },
        )
    }
}

impl MercuryMeter {
    /// The meter at `address`.
    pub fn new(address: u8) -> (meter: MercuryMeter)
        ensures
            meter.address == address,
    {
        MercuryMeter { address }
    }

    /// The bytes of a read command on the line: four, and two of checksum.
    pub fn prepare_cmd(&self, cmd: &ReadParamCmd) -> (bytes: Vec<u8>)
        ensures
            bytes@.len() == 6,
            bytes@ == read_frame(cmd.address, cmd.command, cmd.param_id, cmd.bwri),
            bytes@[0] == cmd.address,
            bytes@[1] == cmd.command,
            bytes@[2] == cmd.param_id,
            bytes@[3] == cmd.bwri,
            crc16(bytes@) == 0,
    {
        proof {
            law_read_frame_layout(cmd.address, cmd.command, cmd.param_id, cmd.bwri);
        }
        let body: Vec<u8> = vec![cmd.address, cmd.command, cmd.param_id, cmd.bwri];
        seal(body)
    }

    /// The command that asks whether the meter is there.
    pub fn check_connection_cmd(&self) -> (bytes: Vec<u8>)
        ensures
            bytes@ == check_frame(self.address),
            bytes@.len() == 4,
            bytes@[0] == self.address,
            bytes@[1] == 0,
            crc16(bytes@) == 0,
    {
        proof {
            law_session_frame_layout(self.address);
        }
        let body: Vec<u8> = vec![self.address, 0x00];
        seal(body)
    }

    /// Judges the reply to a connection check: it must carry its checksum, and no
    /// error code.
    pub fn check_connection_reply(resp: &[u8]) -> (verdict: Result<(), MeterError>)
        ensures
            seen(verdict) == check_verdict(resp@),
            match verdict {
                Ok(_) => {
                    &&& resp@.len() >= 4
                    &&& crc16(resp@.take(resp@.len() - 2)) == resp@[resp@.len() - 2] + 256
                        * resp@[resp@.len() - 1]
                    &&& resp@[1] as int % 16 == 0
                },
                Err(MeterError::ShortCheck) => resp@.len() < 4,
                Err(MeterError::CrcMismatch { computed, carried }) => {
                    &&& resp@.len() >= 4
                    &&& computed == crc16(resp@.take(resp@.len() - 2))
                    &&& carried == resp@[resp@.len() - 2] + 256 * resp@[resp@.len() - 1]
                    &&& computed != carried
                },
                Err(MeterError::ErrorCode { code }) => {
                    &&& resp@.len() >= 4
                    &&& crc16(resp@.take(resp@.len() - 2)) == resp@[resp@.len() - 2] + 256
                        * resp@[resp@.len() - 1]
                    &&& code == resp@[1] as int % 16
                    &&& code != 0
                },
                Err(_) => false,
            },
    {
        let n: usize = resp.len();
        if n < 4 {
            return Err(MeterError::ShortCheck);
        }
        let calc_crc: u16 = MercuryMeter::compute_crc(&resp[0..n - 2]);
        let low: u16 = resp[n - 2] as u16;
        let high: u16 = resp[n - 1] as u16;
        let resp_crc: u16 = (high << 8) | low;
        proof {
            assert(resp_crc == low + 256 * high) by (bit_vector)
                requires
                    resp_crc == (high << 8) | low,
                    low < 256,
                    high < 256,
            ;
            assert(resp@.subrange(0, n - 2) =~= resp@.take(n - 2));
        }
        if calc_crc != resp_crc {
            return Err(MeterError::CrcMismatch { computed: calc_crc, carried: resp_crc });
        }
        let status: u8 = resp[1];
        let res_code: u8 = status & 0x0F;
        proof {
            assert(status & 0x0F == status % 16) by (bit_vector);
        }
        if res_code != 0 {
            return Err(MeterError::ErrorCode { code: res_code });
        }
        Ok(())
    }

    /// The command that opens a session.
    pub fn init_cmd(&self) -> (bytes: Vec<u8>)
        ensures
            bytes@ == init_frame(self.address),
            bytes@.len() == 11,
            bytes@[0] == self.address,
            forall|i: int| 1 <= i < 9 ==> #[trigger] bytes@[i] == 1,
            crc16(bytes@) == 0,
    {
        proof {
            law_session_frame_layout(self.address);
        }
        let body: Vec<u8> = vec![
            self.address,
            0x01,
            0x01,
            0x01,
            0x01,
            0x01,
            0x01,
            0x01,
            0x01,
        ];
        seal(body)
    }

    /// Judges the reply to the opening of a session.
    pub fn init_reply(resp: &[u8]) -> (verdict: Result<(), MeterError>)
        ensures
            seen(verdict) == init_verdict(resp@),
            match verdict {
                Ok(_) => resp@.len() >= 4 && resp@[1] as int % 16 == 0,
                Err(MeterError::ShortInit { reply }) => resp@.len() < 4 && reply@ == resp@,
                Err(MeterError::Refused { status, reply }) => {
                    &&& resp@.len() >= 4
                    &&& resp@[1] as int % 16 != 0
                    &&& status == resp@[1]
                    &&& reply@ == resp@
                },
                Err(_) => false,
            },
    {
        if resp.len() < 4 {
            return Err(MeterError::ShortInit { reply: slice_to_vec(resp) });
        }
        let status: u8 = resp[1];
        proof {
            assert(status & 0x0F == status % 16) by (bit_vector);
        }
        if status & 0x0F != 0 {
            return Err(MeterError::Refused { status, reply: slice_to_vec(resp) });
        }
        Ok(())
    }

    /// The command that reads the voltages.
    pub fn get_u_cmd(&self) -> (bytes: Vec<u8>)
        ensures
            bytes@ == read_frame(self.address, 0x08, 0x16, 0x11),
            bytes@.len() == 6,
            bytes@[0] == self.address,
            bytes@[1] == 0x08,
            bytes@[2] == 0x16,
            bytes@[3] == 0x11,
            crc16(bytes@) == 0,
    {
        proof {
            law_read_frame_layout(self.address, 0x08, 0x16, 0x11);
        }
        let body: Vec<u8> = vec![self.address, 0x08, 0x16, 0x11];
        seal(body)
    }

    /// The voltages in a reply.
    pub fn get_u_reply(resp: &[u8]) -> (voltage: Result<PhaseDataRaw, MeterError>)
        ensures
            seen(voltage) == voltage_of(resp@),
            match voltage {
                Ok(v) => {
                    &&& resp@.len() >= 11
                    &&& v.p1.factor == 100
                    &&& v.p1.raw == (resp@[1] as int % 64) * 0x10000 + resp@[3] * 0x100 + resp@[2]
                    &&& v.p2.factor == 100
                    &&& v.p2.raw == (resp@[4] as int % 64) * 0x10000 + resp@[6] * 0x100 + resp@[5]
                    &&& v.p3.factor == 100
                    &&& v.p3.raw == (resp@[7] as int % 64) * 0x10000 + resp@[9] * 0x100 + resp@[8]
                },
                Err(MeterError::ShortVoltage) => resp@.len() < 11,
                Err(_) => false,
            },
    {
        if resp.len() < 11 {
            return Err(MeterError::ShortVoltage);
        }
        let p1: Reading = Self::decode_b3f_u(&resp[1..4], 100);
        let p2: Reading = Self::decode_b3f_u(&resp[4..7], 100);
        let p3: Reading = Self::decode_b3f_u(&resp[7..10], 100);
        Ok(PhaseDataRaw { p1, p2, p3 })
    }

    /// The command that reads the currents.
    pub fn get_i_cmd(&self) -> (bytes: Vec<u8>)
        ensures
            bytes@ == read_frame(self.address, 0x08, 0x16, 0x21),
            bytes@.len() == 6,
            bytes@[0] == self.address,
            bytes@[1] == 0x08,
            bytes@[2] == 0x16,
            bytes@[3] == 0x21,
            crc16(bytes@) == 0,
    {
        let cmd = ReadParamCmd {
            address: self.address,
            command: 0x08,
            param_id: 0x16,
            bwri: 0x21,
            crc: 0,
        };
        self.prepare_cmd(&cmd)
    }

    /// The currents in a reply.
    pub fn get_i_reply(resp: &[u8]) -> (current: Result<PhaseDataRaw, MeterError>)
        ensures
            seen(current) == current_of(resp@),
            match current {
                Ok(v) => {
                    &&& resp@.len() >= 11
                    &&& v.p1.factor == 1000
                    &&& v.p1.raw == (resp@[1] as int % 64) * 0x10000 + resp@[3] * 0x100 + resp@[2]
                    &&& v.p2.factor == 1000
                    &&& v.p2.raw == (resp@[4] as int % 64) * 0x10000 + resp@[6] * 0x100 + resp@[5]
                    &&& v.p3.factor == 1000
                    &&& v.p3.raw == (resp@[7] as int % 64) * 0x10000 + resp@[9] * 0x100 + resp@[8]
                },
                Err(MeterError::ShortReading) => resp@.len() < 11,
                Err(_) => false,
            },
    {
        if resp.len() < 11 {
            return Err(MeterError::ShortReading);
        }
        let p1: Reading = Self::decode_b3f_u(&resp[1..4], 1000);
        let p2: Reading = Self::decode_b3f_u(&resp[4..7], 1000);
        let p3: Reading = Self::decode_b3f_u(&resp[7..10], 1000);
        Ok(PhaseDataRaw { p1, p2, p3 })
    }

    /// The command that reads the power factors.
    pub fn get_cos_f_cmd(&self) -> (bytes: Vec<u8>)
        ensures
            bytes@ == read_frame(self.address, 0x08, 0x16, 0x30),
            bytes@.len() == 6,
            bytes@[0] == self.address,
            bytes@[1] == 0x08,
            bytes@[2] == 0x16,
            bytes@[3] == 0x30,
            crc16(bytes@) == 0,
    {
        let cmd = ReadParamCmd {
            address: self.address,
            command: 0x08,
            param_id: 0x16,
            bwri: 0x30,
            crc: 0,
        };
        self.prepare_cmd(&cmd)
    }

    /// The power factors in a reply.
    pub fn get_cos_f_reply(resp: &[u8]) -> (cos_f: Result<SumPhaseDataRaw, MeterError>)
        ensures
            seen(cos_f) == cos_f_of(resp@),
            match cos_f {
                Ok(v) => {
                    &&& resp@.len() >= 14
                    &&& v.p1.factor == 1000
                    &&& v.p1.raw == (resp@[1] as int % 64) * 0x10000 + resp@[3] * 0x100 + resp@[2]
                    &&& v.p2.factor == 1000
                    &&& v.p2.raw == (resp@[4] as int % 64) * 0x10000 + resp@[6] * 0x100 + resp@[5]
                    &&& v.p3.factor == 1000
                    &&& v.p3.raw == (resp@[7] as int % 64) * 0x10000 + resp@[9] * 0x100 + resp@[8]
                    &&& v.sum.factor == 1000
                    &&& v.sum.raw
                        == (resp@[10] as int % 64) * 0x10000 + resp@[12] * 0x100 + resp@[11]
                },
                Err(MeterError::ShortCosF { reply }) => resp@.len() < 14 && reply@ == resp@,
                Err(_) => false,
            },
    {
        if resp.len() < 14 {
            return Err(MeterError::ShortCosF { reply: slice_to_vec(resp) });
        }
        Ok(
            SumPhaseDataRaw {
                p1: Self::decode_b3f_u(&resp[1..4], 1000),
                p2: Self::decode_b3f_u(&resp[4..7], 1000),
                p3: Self::decode_b3f_u(&resp[7..10], 1000),
                sum: Self::decode_b3f_u(&resp[10..13], 1000),
            },
        )
    }

    /// The command that reads the frequency.
    pub fn get_f_cmd(&self) -> (bytes: Vec<u8>)
        ensures
            bytes@ == read_frame(self.address, 0x08, 0x16, 0x40),
            bytes@.len() == 6,
            bytes@[0] == self.address,
            bytes@[1] == 0x08,
            bytes@[2] == 0x16,
            bytes@[3] == 0x40,
            crc16(bytes@) == 0,
    {
        let cmd = ReadParamCmd {
            address: self.address,
            command: 0x08,
            param_id: 0x16,
            bwri: 0x40,
            crc: 0,
        };
        self.prepare_cmd(&cmd)
    }

    /// The frequency in a reply, which must hold at least four bytes.
    pub fn get_f_reply(resp: &[u8]) -> (frequency: Reading)
        requires
            resp@.len() >= 4,
        ensures
            frequency == frequency_of(resp@),
            frequency.factor == 100,
            frequency.raw == resp@[2] + 256 * resp@[3],
    {
        let low: u32 = resp[2] as u32;
        let high: u32 = resp[3] as u32;
        let raw: u32 = low | (high << 8);
        proof {
            assert(raw == low + 256 * high) by (bit_vector)
                requires
                    raw == low | (high << 8),
                    low < 256,
                    high < 256,
            ;
        }
        Reading { raw, factor: 100 }
    }

    /// The command that reads the active power.
    pub fn get_p_cmd(&self) -> (bytes: Vec<u8>)
        ensures
            bytes@ == read_frame(self.address, 0x08, 0x16, 0x00),
            bytes@.len() == 6,
            bytes@[0] == self.address,
            bytes@[1] == 0x08,
            bytes@[2] == 0x16,
            bytes@[3] == 0x00,
            crc16(bytes@) == 0,
    {
        let cmd = ReadParamCmd {
            address: self.address,
            command: 0x08,
            param_id: 0x16,
            bwri: 0x00,
            crc: 0,
        };
        self.prepare_cmd(&cmd)
    }

    /// The active power in a reply.
    pub fn get_p_reply(resp: &[u8]) -> (power: Result<SumPhaseDataRaw, MeterError>)
        ensures
            seen(power) == active_power_of(resp@),
            match power {
                Ok(v) => {
                    &&& resp@.len() >= 14
                    &&& v.p1.factor == 100
                    &&& v.p1.raw == (resp@[1] as int % 64) * 0x10000 + resp@[3] * 0x100 + resp@[2]
                    &&& v.p2.factor == 100
                    &&& v.p2.raw == (resp@[4] as int % 64) * 0x10000 + resp@[6] * 0x100 + resp@[5]
                    &&& v.p3.factor == 100
                    &&& v.p3.raw == (resp@[7] as int % 64) * 0x10000 + resp@[9] * 0x100 + resp@[8]
                    &&& v.sum.factor == 100
                    &&& v.sum.raw
                        == (resp@[10] as int % 64) * 0x10000 + resp@[12] * 0x100 + resp@[11]
                },
                Err(MeterError::ShortReading) => resp@.len() < 14,
                Err(_) => false,
            },
    {
        if resp.len() < 14 {
            return Err(MeterError::ShortReading);
        }
        Ok(
            SumPhaseDataRaw {
                p1: Self::decode_b3f_u(&resp[1..4], 100),
                p2: Self::decode_b3f_u(&resp[4..7], 100),
                p3: Self::decode_b3f_u(&resp[7..10], 100),
                sum: Self::decode_b3f_u(&resp[10..13], 100),
            },
        )
    }

    /// The command that reads the reactive power.
    pub fn get_s_cmd(&self) -> (bytes: Vec<u8>)
        ensures
            bytes@ == read_frame(self.address, 0x08, 0x16, 0x08),
            bytes@.len() == 6,
            bytes@[0] == self.address,
            bytes@[1] == 0x08,
            bytes@[2] == 0x16,
            bytes@[3] == 0x08,
            crc16(bytes@) == 0,
    {
        let cmd = ReadParamCmd {
            address: self.address,
            command: 0x08,
            param_id: 0x16,
            bwri: 0x08,
            crc: 0,
        };
        self.prepare_cmd(&cmd)
    }

    /// The reactive power in a reply.
    pub fn get_s_reply(resp: &[u8]) -> (reactive: Result<SumPhaseDataRaw, MeterError>)
        ensures
            seen(reactive) == reactive_power_of(resp@),
            match reactive {
                Ok(v) => {
                    &&& resp@.len() >= 14
                    &&& v.p1.factor == 100
                    &&& v.p1.raw == (resp@[1] as int % 64) * 0x10000 + resp@[3] * 0x100 + resp@[2]
                    &&& v.p2.factor == 100
                    &&& v.p2.raw == (resp@[4] as int % 64) * 0x10000 + resp@[6] * 0x100 + resp@[5]
                    &&& v.p3.factor == 100
                    &&& v.p3.raw == (resp@[7] as int % 64) * 0x10000 + resp@[9] * 0x100 + resp@[8]
                    &&& v.sum.factor == 100
                    &&& v.sum.raw
                        == (resp@[10] as int % 64) * 0x10000 + resp@[12] * 0x100 + resp@[11]
                },
                Err(MeterError::ShortReactivePower { reply }) => resp@.len() < 14 && reply@ == resp@,
                Err(_) => false,
            },
    {
        if resp.len() < 14 {
            return Err(MeterError::ShortReactivePower { reply: slice_to_vec(resp) });
        }
        Ok(
            SumPhaseDataRaw {
                p1: Self::decode_b3f_u(&resp[1..4], 100),
                p2: Self::decode_b3f_u(&resp[4..7], 100),
                p3: Self::decode_b3f_u(&resp[7..10], 100),
                sum: Self::decode_b3f_u(&resp[10..13], 100),
            },
        )
    }

    /// The command that reads the energy of a period under a tariff.
    pub fn get_w_cmd(&self, period_id: u8, month: u8, tariff: u8) -> (bytes: Vec<u8>)
        ensures
            bytes@ == read_frame(self.address, 0x05, energy_param(period_id, month), tariff),
            bytes@.len() == 6,
            bytes@[0] == self.address,
            bytes@[1] == 0x05,
            bytes@[2] == (period_id as int % 16) * 16 + month as int % 16,
            bytes@[3] == tariff,
            crc16(bytes@) == 0,
    {
        proof {
            assert((period_id << 4) | (month & 0x0F) == (period_id % 16) * 16 + month % 16)
                by (bit_vector);
        }
        let cmd = ReadParamCmd {
            address: self.address,
            command: 0x05,
            param_id: (period_id << 4) | (month & 0x0F),
            bwri: tariff,
            crc: 0,
        };
        self.prepare_cmd(&cmd)
    }

    /// The energy counters in a reply.
    pub fn get_w_reply(resp: &[u8]) -> (energy: Result<PowerCounterRaw, MeterError>)
        ensures
            seen(energy) == energy_of(resp@),
            match energy {
                Ok(v) => {
                    &&& resp@.len() >= 18
                    &&& v.ap.factor == 1000
                    &&& v.ap.raw
                        == resp@[2] * 0x1000000 + resp@[1] * 0x10000 + resp@[4] * 0x100 + resp@[3]
                    &&& v.am.factor == 1000
                    &&& v.am.raw
                        == resp@[6] * 0x1000000 + resp@[5] * 0x10000 + resp@[8] * 0x100 + resp@[7]
                    &&& v.rp.factor == 1000
                    &&& v.rp.raw
                        == resp@[10] * 0x1000000 + resp@[9] * 0x10000 + resp@[12] * 0x100 + resp@[11]
                    &&& v.rm.factor == 1000
                    &&& v.rm.raw
                        == resp@[14] * 0x1000000 + resp@[13] * 0x10000 + resp@[16] * 0x100 + resp@[15]
                },
                Err(MeterError::ShortReading) => resp@.len() < 18,
                Err(_) => false,
            },
    {
        if resp.len() < 18 {
            return Err(MeterError::ShortReading);
        }
        Ok(
            PowerCounterRaw {
                ap: Self::decode_b4f_u(&resp[1..5], 1000),
                am: Self::decode_b4f_u(&resp[5..9], 1000),
                rp: Self::decode_b4f_u(&resp[9..13], 1000),
                rm: Self::decode_b4f_u(&resp[13..17], 1000),
            },
        )
    }
}

/// A read command carries its four bytes in order and checks out.
pub proof fn law_read_frame_layout(address: u8, command: u8, param_id: u8, bwri: u8)
    ensures
        read_frame(address, command, param_id, bwri).len() == 6,
        read_frame(address, command, param_id, bwri)[0] == address,
        read_frame(address, command, param_id, bwri)[1] == command,
        read_frame(address, command, param_id, bwri)[2] == param_id,
        read_frame(address, command, param_id, bwri)[3] == bwri,
        crc16(read_frame(address, command, param_id, bwri)) == 0,
{
    let body = seq![address, command, param_id, bwri];
    law_sealed_layout(body);
    assert forall|i: int| 0 <= i < 4 implies #[trigger] framed(body)[i] == body[i] by {
        assert(framed(body).take(4)[i] == body[i]);
    }
}

/// The command that checks the connection carries the address and a zero, that which
/// opens a session the address and eight ones; both check out.
pub proof fn law_session_frame_layout(address: u8)
    ensures
        check_frame(address).len() == 4,
        check_frame(address)[0] == address,
        check_frame(address)[1] == 0,
        crc16(check_frame(address)) == 0,
        init_frame(address).len() == 11,
        init_frame(address)[0] == address,
        forall|i: int| 1 <= i < 9 ==> #[trigger] init_frame(address)[i] == 1,
        crc16(init_frame(address)) == 0,
{
    law_sealed_layout(seq![address, 0x00u8]);
    let body = seq![address, 0x01u8, 0x01, 0x01, 0x01, 0x01, 0x01, 0x01, 0x01];
    law_sealed_layout(body);
    assert(init_frame(address) == framed(body));
    assert forall|i: int| 0 <= i < 9 implies #[trigger] framed(body)[i] == body[i] by {
        assert(framed(body).take(9)[i] == body[i]);
    }
}

/// The parameter byte of an energy command gives back the lower four bits of the period
/// and of the month.
pub proof fn law_energy_param_holds_both(period_id: u8, month: u8)
    ensures
        energy_param(period_id, month) as int / 16 == period_id as int % 16,
        energy_param(period_id, month) as int % 16 == month as int % 16,
{
}

/// The bytes of a number as they come out of the casts.
proof fn lemma_sent_bytes(n: int, flags: int)
    requires
        0 <= n < 0x400000,
        0 <= flags < 4,
    ensures
        ((flags * 64 + n / 0x10000) as u8) as int % 64 == n / 0x10000,
        ((n % 0x100) as u8) as int == n % 0x100,
        ((n / 0x100 % 0x100) as u8) as int == n / 0x100 % 0x100,
        (n / 0x10000) * 0x10000 + (n / 0x100 % 0x100) * 0x100 + n % 0x100 == n,
{
    let b0 = flags * 64 + n / 0x10000;
    assert(0 <= n / 0x10000 < 64);
    assert(b0 % 64 == n / 0x10000);
}

/// The four bytes of a counter as they come out of the casts.
proof fn lemma_sent_word(n: int)
    requires
        0 <= n < 0x100000000,
    ensures
        ((n / 0x10000 % 0x100) as u8) as int == n / 0x10000 % 0x100,
        ((n / 0x1000000) as u8) as int == n / 0x1000000,
        ((n % 0x100) as u8) as int == n % 0x100,
        ((n / 0x100 % 0x100) as u8) as int == n / 0x100 % 0x100,
        (n / 0x1000000) * 0x1000000 + (n / 0x10000 % 0x100) * 0x10000 + (n / 0x100 % 0x100) * 0x100
            + n % 0x100 == n,
{
}

/// Three voltages sent behind the address, in hundredths, are read as they were sent,
/// phase by phase. A reply of fewer than eleven bytes is refused.
pub proof fn law_voltages_sent_are_read(
    address: u8,
    a: int,
    fa: int,
    b: int,
    fb: int,
    c: int,
    fc: int,
    tail: Seq<u8>,
    other: Seq<u8>,
)
    requires
        0 <= a < 0x400000,
        0 <= fa < 4,
        0 <= b < 0x400000,
        0 <= fb < 4,
        0 <= c < 0x400000,
        0 <= fc < 4,
        tail.len() >= 1,
        other.len() < 11,
    ensures
        voltage_of(seq![
            address,
            (fa * 64 + a / 0x10000) as u8,
            (a % 0x100) as u8,
            (a / 0x100 % 0x100) as u8,
            (fb * 64 + b / 0x10000) as u8,
            (b % 0x100) as u8,
            (b / 0x100 % 0x100) as u8,
            (fc * 64 + c / 0x10000) as u8,
            (c % 0x100) as u8,
            (c / 0x100 % 0x100) as u8,
        ] + tail) == Ok::<PhaseDataRaw, Fault>(PhaseDataRaw {
            p1: Reading { raw: a as u32, factor: 100 },
            p2: Reading { raw: b as u32, factor: 100 },
            p3: Reading { raw: c as u32, factor: 100 },
        }),
        voltage_of(other) == Err::<PhaseDataRaw, Fault>(Fault::ShortVoltage),
{
    lemma_sent_bytes(a, fa);
    lemma_sent_bytes(b, fb);
    lemma_sent_bytes(c, fc);
}

/// Three currents sent behind the address, in thousandths, are read as they were sent,
/// phase by phase. A reply of fewer than eleven bytes is refused.
pub proof fn law_currents_sent_are_read(
    address: u8,
    a: int,
    fa: int,
    b: int,
    fb: int,
    c: int,
    fc: int,
    tail: Seq<u8>,
    other: Seq<u8>,
)
    requires
        0 <= a < 0x400000,
        0 <= fa < 4,
        0 <= b < 0x400000,
        0 <= fb < 4,
        0 <= c < 0x400000,
        0 <= fc < 4,
        tail.len() >= 1,
        other.len() < 11,
    ensures
        current_of(seq![
            address,
            (fa * 64 + a / 0x10000) as u8,
            (a % 0x100) as u8,
            (a / 0x100 % 0x100) as u8,
            (fb * 64 + b / 0x10000) as u8,
            (b % 0x100) as u8,
            (b / 0x100 % 0x100) as u8,
            (fc * 64 + c / 0x10000) as u8,
            (c % 0x100) as u8,
            (c / 0x100 % 0x100) as u8,
        ] + tail) == Ok::<PhaseDataRaw, Fault>(PhaseDataRaw {
            p1: Reading { raw: a as u32, factor: 1000 },
            p2: Reading { raw: b as u32, factor: 1000 },
            p3: Reading { raw: c as u32, factor: 1000 },
        }),
        current_of(other) == Err::<PhaseDataRaw, Fault>(Fault::ShortReading),
{
    lemma_sent_bytes(a, fa);
    lemma_sent_bytes(b, fb);
    lemma_sent_bytes(c, fc);
}

/// Three power factors and the total one sent behind the address, in thousandths, are
/// read as they were sent. A reply of fewer than fourteen bytes is refused.
pub proof fn law_power_factors_sent_are_read(
    address: u8,
    a: int,
    fa: int,
    b: int,
    fb: int,
    c: int,
    fc: int,
    d: int,
    fd: int,
    tail: Seq<u8>,
    other: Seq<u8>,
)
    requires
        0 <= a < 0x400000,
        0 <= fa < 4,
        0 <= b < 0x400000,
        0 <= fb < 4,
        0 <= c < 0x400000,
        0 <= fc < 4,
        0 <= d < 0x400000,
        0 <= fd < 4,
        tail.len() >= 1,
        other.len() < 14,
    ensures
        cos_f_of(seq![
            address,
            (fa * 64 + a / 0x10000) as u8,
            (a % 0x100) as u8,
            (a / 0x100 % 0x100) as u8,
            (fb * 64 + b / 0x10000) as u8,
            (b % 0x100) as u8,
            (b / 0x100 % 0x100) as u8,
            (fc * 64 + c / 0x10000) as u8,
            (c % 0x100) as u8,
            (c / 0x100 % 0x100) as u8,
            (fd * 64 + d / 0x10000) as u8,
            (d % 0x100) as u8,
            (d / 0x100 % 0x100) as u8,
        ] + tail) == Ok::<SumPhaseDataRaw, Fault>(SumPhaseDataRaw {
            p1: Reading { raw: a as u32, factor: 1000 },
            p2: Reading { raw: b as u32, factor: 1000 },
            p3: Reading { raw: c as u32, factor: 1000 },
            sum: Reading { raw: d as u32, factor: 1000 },
        }),
        cos_f_of(other) == Err::<SumPhaseDataRaw, Fault>(Fault::ShortCosF { reply: other }),
{
    lemma_sent_bytes(a, fa);
    lemma_sent_bytes(b, fb);
    lemma_sent_bytes(c, fc);
    lemma_sent_bytes(d, fd);
}

/// Three active powers and their total sent behind the address, in hundredths, are read
/// as they were sent. A reply of fewer than fourteen bytes is refused.
pub proof fn law_active_powers_sent_are_read(
    address: u8,
    a: int,
    fa: int,
    b: int,
    fb: int,
    c: int,
    fc: int,
    d: int,
    fd: int,
    tail: Seq<u8>,
    other: Seq<u8>,
)
    requires
        0 <= a < 0x400000,
        0 <= fa < 4,
        0 <= b < 0x400000,
        0 <= fb < 4,
        0 <= c < 0x400000,
        0 <= fc < 4,
        0 <= d < 0x400000,
        0 <= fd < 4,
        tail.len() >= 1,
        other.len() < 14,
    ensures
        active_power_of(seq![
            address,
            (fa * 64 + a / 0x10000) as u8,
            (a % 0x100) as u8,
            (a / 0x100 % 0x100) as u8,
            (fb * 64 + b / 0x10000) as u8,
            (b % 0x100) as u8,
            (b / 0x100 % 0x100) as u8,
            (fc * 64 + c / 0x10000) as u8,
            (c % 0x100) as u8,
            (c / 0x100 % 0x100) as u8,
            (fd * 64 + d / 0x10000) as u8,
            (d % 0x100) as u8,
            (d / 0x100 % 0x100) as u8,
        ] + tail) == Ok::<SumPhaseDataRaw, Fault>(SumPhaseDataRaw {
            p1: Reading { raw: a as u32, factor: 100 },
            p2: Reading { raw: b as u32, factor: 100 },
            p3: Reading { raw: c as u32, factor: 100 },
            sum: Reading { raw: d as u32, factor: 100 },
        }),
        active_power_of(other) == Err::<SumPhaseDataRaw, Fault>(Fault::ShortReading),
{
    lemma_sent_bytes(a, fa);
    lemma_sent_bytes(b, fb);
    lemma_sent_bytes(c, fc);
    lemma_sent_bytes(d, fd);
}

/// Three reactive powers and their total sent behind the address, in hundredths, are
/// read as they were sent. A reply of fewer than fourteen bytes is refused.
pub proof fn law_reactive_powers_sent_are_read(
    address: u8,
    a: int,
    fa: int,
    b: int,
    fb: int,
    c: int,
    fc: int,
    d: int,
    fd: int,
    tail: Seq<u8>,
    other: Seq<u8>,
)
    requires
        0 <= a < 0x400000,
        0 <= fa < 4,
        0 <= b < 0x400000,
        0 <= fb < 4,
        0 <= c < 0x400000,
        0 <= fc < 4,
        0 <= d < 0x400000,
        0 <= fd < 4,
        tail.len() >= 1,
        other.len() < 14,
    ensures
        reactive_power_of(seq![
            address,
            (fa * 64 + a / 0x10000) as u8,
            (a % 0x100) as u8,
            (a / 0x100 % 0x100) as u8,
            (fb * 64 + b / 0x10000) as u8,
            (b % 0x100) as u8,
            (b / 0x100 % 0x100) as u8,
            (fc * 64 + c / 0x10000) as u8,
            (c % 0x100) as u8,
            (c / 0x100 % 0x100) as u8,
            (fd * 64 + d / 0x10000) as u8,
            (d % 0x100) as u8,
            (d / 0x100 % 0x100) as u8,
        ] + tail) == Ok::<SumPhaseDataRaw, Fault>(SumPhaseDataRaw {
            p1: Reading { raw: a as u32, factor: 100 },
            p2: Reading { raw: b as u32, factor: 100 },
            p3: Reading { raw: c as u32, factor: 100 },
            sum: Reading { raw: d as u32, factor: 100 },
        }),
        reactive_power_of(other) == Err::<SumPhaseDataRaw, Fault>(Fault::ShortReactivePower { reply: other }),
{
    lemma_sent_bytes(a, fa);
    lemma_sent_bytes(b, fb);
    lemma_sent_bytes(c, fc);
    lemma_sent_bytes(d, fd);
}

/// A frequency sent as a 16-bit number behind two bytes, the lower byte first, is read
/// as it was sent, in hundredths. A reply of fewer than four bytes holds none.
pub proof fn law_frequency_sent_is_read(
    first: u8,
    second: u8,
    n: int,
    tail: Seq<u8>,
    other: Seq<u8>,
)
    requires
        0 <= n < 0x10000,
        other.len() < 4,
    ensures
        frequency_in(seq![first, second, (n % 0x100) as u8, (n / 0x100) as u8] + tail) == Ok::<
            Reading,
            Fault,
        >(Reading { raw: n as u32, factor: 100 }),
        frequency_in(other) == Err::<Reading, Fault>(Fault::ShortReading),
{
}

/// Four counters sent behind the address, in thousandths, are read as they were sent:
/// the active energy taken and given, then the reactive. A reply of fewer than eighteen
/// bytes is refused.
pub proof fn law_counters_sent_are_read(
    address: u8,
    a: int,
    b: int,
    c: int,
    d: int,
    tail: Seq<u8>,
    other: Seq<u8>,
)
    requires
        0 <= a < 0x100000000,
        0 <= b < 0x100000000,
        0 <= c < 0x100000000,
        0 <= d < 0x100000000,
        tail.len() >= 1,
        other.len() < 18,
    ensures
        energy_of(seq![
            address,
            (a / 0x10000 % 0x100) as u8,
            (a / 0x1000000) as u8,
            (a % 0x100) as u8,
            (a / 0x100 % 0x100) as u8,
            (b / 0x10000 % 0x100) as u8,
            (b / 0x1000000) as u8,
            (b % 0x100) as u8,
            (b / 0x100 % 0x100) as u8,
            (c / 0x10000 % 0x100) as u8,
            (c / 0x1000000) as u8,
            (c % 0x100) as u8,
            (c / 0x100 % 0x100) as u8,
            (d / 0x10000 % 0x100) as u8,
            (d / 0x1000000) as u8,
            (d % 0x100) as u8,
            (d / 0x100 % 0x100) as u8,
        ] + tail) == Ok::<PowerCounterRaw, Fault>(PowerCounterRaw {
            ap: Reading { raw: a as u32, factor: 1000 },
            am: Reading { raw: b as u32, factor: 1000 },
            rp: Reading { raw: c as u32, factor: 1000 },
            rm: Reading { raw: d as u32, factor: 1000 },
        }),
        energy_of(other) == Err::<PowerCounterRaw, Fault>(Fault::ShortReading),
{
    lemma_sent_word(a);
    lemma_sent_word(b);
    lemma_sent_word(c);
    lemma_sent_word(d);
}

/// The connection check in terms of bytes: short replies, then the checksum in the last
/// two bytes, then the lower four bits of the second byte decide, in this order.
pub proof fn law_check_by_bytes(resp: Seq<u8>)
    ensures
        resp.len() < 4 ==> check_verdict(resp) == Err::<(), Fault>(Fault::ShortCheck),
        resp.len() >= 4 ==> ({
            let computed = crc16(resp.take(resp.len() - 2));
            let carried = resp[resp.len() - 2] + 256 * resp[resp.len() - 1];
            if computed != carried {
                check_verdict(resp) == Err::<(), Fault>(
                    Fault::CrcMismatch { computed, carried: carried as u16 },
                )
            } else if resp[1] as int % 16 != 0 {
                check_verdict(resp) == Err::<(), Fault>(
                    Fault::ErrorCode { code: (resp[1] as int % 16) as u8 },
                )
            } else {
                check_verdict(resp) == Ok::<(), Fault>(())
            }
        }),
{
}

/// The opening of a session in terms of bytes: the lower four bits of the second byte
/// decide, and nothing else in the reply does, its checksum included.
pub proof fn law_init_by_bytes(resp: Seq<u8>)
    ensures
        resp.len() < 4 ==> init_verdict(resp) == Err::<(), Fault>(Fault::ShortInit { reply: resp }),
        resp.len() >= 4 && resp[1] as int % 16 == 0 ==> init_verdict(resp) == Ok::<(), Fault>(()),
        resp.len() >= 4 && resp[1] as int % 16 != 0 ==> init_verdict(resp) == Err::<(), Fault>(
            Fault::Refused { status: resp[1], reply: resp },
        ),
{
}

/// A connection is accepted exactly on an intact frame of four bytes or more
/// without an error code.
pub proof fn law_connection_accepted(resp: Seq<u8>)
    ensures
        check_verdict(resp) is Ok <==> resp.len() >= 4 && intact(resp) && resp[1] % 16 == 0,
{
}

/// A meter that seals its status byte is understood: the reply is accepted when
/// the status holds no error code, and answered with that code when it does.
pub proof fn law_status_reply_understood(address: u8, status: u8)
    ensures
        check_verdict(framed(seq![address, status])) == if status % 16 == 0 {
            Ok::<(), Fault>(())
        } else {
            Err(Fault::ErrorCode { code: status % 16 })
        },
{
    law_sealed_is_intact(seq![address, status]);
}

/// An accepted reply that is damaged on the line in one byte, or in two
/// neighbouring ones, is refused for its checksum.
pub proof fn law_damaged_reply_refused(resp: Seq<u8>, i: int, a: u8, b: u8)
    requires
        check_verdict(resp) is Ok,
        0 <= i < resp.len() - 1,
        a != resp[i] || b != resp[i + 1],
    ensures
        check_verdict(resp.update(i, a).update(i + 1, b)) matches Err(Fault::CrcMismatch { .. }),
{
    law_damage_is_detected(resp, i, a, b);
}

} // verus!
