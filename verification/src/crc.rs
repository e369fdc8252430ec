//! The checksum that closes every frame: a 16-bit cyclic redundancy check with
//! the reflected generator `0xA001` and the initial register `0xFFFF`.

use vstd::prelude::*;

use crate::meter::MercuryMeter;

verus! {

/// The register before the first byte.
pub const CRC_INIT: u16 = 0xFFFF;

/// The generator `x^16 + x^15 + x^2 + 1` without its leading term, lowest power
/// in the highest bit.
pub const CRC_GENERATOR: u16 = 0xA001;

/// The register after its lowest bit has been shifted out.
pub open spec fn shift_out(crc: u16) -> u16 {
    if crc & 1 == 1 {
        (crc >> 1) ^ 0xA001
    } else {
        crc >> 1
    }
}

/// The register after `n` bits have been shifted out.
pub open spec fn shift_out_many(crc: u16, n: nat) -> u16
    decreases n,
{
    if n == 0 {
        crc
    } else {
        shift_out(shift_out_many(crc, (n - 1) as nat))
    }
}

/// The register after one more byte of the message.
pub open spec fn absorb(crc: u16, byte: u8) -> u16 {
    shift_out_many(crc ^ (byte as u16), 8)
}

/// The register after `data`, starting from `crc`.
pub open spec fn crc_from(crc: u16, data: Seq<u8>) -> u16
    decreases data.len(),
{
    if data.len() == 0 {
        crc
    } else {
        absorb(crc_from(crc, data.drop_last()), data.last())
    }
}

/// The checksum of `data`.
pub open spec fn crc16(data: Seq<u8>) -> u16 {
    crc_from(CRC_INIT, data)
}

impl MercuryMeter {
    /// Computes the checksum of `data`.
    pub fn compute_crc(data: &[u8]) -> (crc: u16)
        ensures
            crc == crc16(data@),
    {
        let mut crc: u16 = CRC_INIT;
        for i in 0..data.len()
            invariant
                crc == crc16(data@.take(i as int)),
        {
            let byte: u8 = data[i];
            let ghost before = crc;
            crc = crc ^ (byte as u16);
            let mut k: u32 = 0;
            while k < 8
                invariant
                    k <= 8,
                    crc == shift_out_many(before ^ (byte as u16), k as nat),
                decreases 8 - k,
            {
                let ghost prev = crc;
                proof {
                    assert(prev & 1 == 0 || prev & 1 == 1) by (bit_vector);
                }
                if (crc & 0x0001) != 0 {
                    crc = crc >> 1;
                    crc = crc ^ CRC_GENERATOR;
                } else {
                    crc = crc >> 1;
                }
                k = k + 1;
            }
            proof {
                let next = data@.take(i + 1);
                assert(next.drop_last() =~= data@.take(i as int));
            }
        }
        proof {
            assert(data@.take(data@.len() as int) =~= data@);
        }
        crc
    }
}

} // verus!
