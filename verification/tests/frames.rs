use mercury_monitor::decode::Reading;
use mercury_monitor::error::MeterError;
use mercury_monitor::frame::seal;
use mercury_monitor::meter::{MercuryMeter, ReadParamCmd};

#[test]
fn checksum_of_known_messages() {
    assert_eq!(MercuryMeter::compute_crc(&[]), 0xFFFF);
    assert_eq!(MercuryMeter::compute_crc(&[0x00, 0x00]), 0xB001);
    assert_eq!(MercuryMeter::compute_crc(b"123456789"), 0x4B37);
}

#[test]
fn checksum_is_the_remainder_of_a_division() {
    let data = b"Mercury 236";
    let mut bits: Vec<bool> = Vec::new();
    for byte in data {
        for k in 0..8 {
            bits.push(byte >> k & 1 == 1);
        }
    }
    let n = bits.len();
    bits.extend([false; 16]);
    for k in 0..16 {
        bits[k] ^= true;
    }
    for k in 0..n {
        if bits[k] {
            for power in [16, 15, 2, 0] {
                bits[k + 16 - power] ^= true;
            }
        }
    }
    let mut remainder = 0u16;
    for k in 0..16 {
        if bits[n + k] {
            remainder |= 1 << k;
        }
    }
    assert_eq!(MercuryMeter::compute_crc(data), remainder);
}

#[test]
fn checksum_of_a_continuation_depends_on_the_checksum_before() {
    let target = MercuryMeter::compute_crc(b"ab");
    let other = (0..=0xFFFFu16)
        .map(|w| [b'z', w as u8, (w >> 8) as u8])
        .find(|m| MercuryMeter::compute_crc(m) == target)
        .unwrap();
    let first = [b"ab".to_vec(), b"tail".to_vec()].concat();
    let second = [other.to_vec(), b"tail".to_vec()].concat();
    assert_eq!(MercuryMeter::compute_crc(&first), MercuryMeter::compute_crc(&second));
}

#[test]
fn sealed_frame_has_no_residue() {
    let frame = seal(vec![0x07, 0x05, 0x3C, 0x04]);
    assert_eq!(frame, vec![0x07, 0x05, 0x3C, 0x04, 0x01, 0x92]);
    assert_eq!(MercuryMeter::compute_crc(&frame), 0);
}

#[test]
fn commands_on_the_line() {
    let meter = MercuryMeter::new(0);
    assert_eq!(meter.check_connection_cmd(), vec![0x00, 0x00, 0x01, 0xB0]);
    assert_eq!(
        meter.init_cmd(),
        vec![0x00, 0x01, 0x01, 0x01, 0x01, 0x01, 0x01, 0x01, 0x01, 0x77, 0x81]
    );
    assert_eq!(meter.get_u_cmd(), vec![0x00, 0x08, 0x16, 0x11, 0x4F, 0x8A]);
    assert_eq!(meter.get_i_cmd(), vec![0x00, 0x08, 0x16, 0x21, 0x4F, 0x9E]);
    assert_eq!(meter.get_cos_f_cmd(), vec![0x00, 0x08, 0x16, 0x30, 0x8F, 0x92]);
    assert_eq!(meter.get_p_cmd(), vec![0x00, 0x08, 0x16, 0x00, 0x8F, 0x86]);
    assert_eq!(meter.get_s_cmd(), vec![0x00, 0x08, 0x16, 0x08, 0x8E, 0x40]);
    assert_eq!(meter.get_f_cmd(), vec![0x00, 0x08, 0x16, 0x40, 0x8E, 0x76]);
    assert_eq!(meter.get_w_cmd(5, 0, 0), vec![0x00, 0x05, 0x50, 0x00, 0x2C, 0x25]);
    assert_eq!(MercuryMeter::new(0x80).check_connection_cmd(), vec![0x80, 0x00, 0x60, 0x70]);
}

#[test]
fn energy_command_keeps_four_bits_of_period_and_month() {
    let meter = MercuryMeter::new(7);
    assert_eq!(meter.get_w_cmd(0xF3, 0xAC, 4), vec![0x07, 0x05, 0x3C, 0x04, 0x01, 0x92]);
}

#[test]
fn prepared_command_ignores_the_checksum_field() {
    let meter = MercuryMeter::new(9);
    let cmd = ReadParamCmd { address: 0, command: 8, param_id: 0x16, bwri: 0x11, crc: 0xDEAD };
    assert_eq!(meter.prepare_cmd(&cmd), vec![0x00, 0x08, 0x16, 0x11, 0x4F, 0x8A]);
}

#[test]
fn connection_check_verdicts() {
    assert!(MercuryMeter::check_connection_reply(&[0x00, 0x00, 0x01, 0xB0]).is_ok());
    assert!(MercuryMeter::check_connection_reply(&[0x80, 0x00, 0x60, 0x70]).is_ok());
    let short = MercuryMeter::check_connection_reply(&[0x00, 0x01, 0xB0]);
    assert!(matches!(short, Err(MeterError::ShortCheck)));
    let code = MercuryMeter::check_connection_reply(&[0x00, 0x05, 0xC1, 0xB3]);
    assert!(matches!(code, Err(MeterError::ErrorCode { code: 5 })));
    let low_bits = MercuryMeter::check_connection_reply(&[0x00, 0x13, 0x40, 0x7D]);
    assert!(matches!(low_bits, Err(MeterError::ErrorCode { code: 3 })));
    let broken = MercuryMeter::check_connection_reply(&[0x00, 0x05, 0x01, 0xB0]);
    assert!(matches!(
        broken,
        Err(MeterError::CrcMismatch { computed: 0xB3C1, carried: 0xB001 })
    ));
}

#[test]
fn damage_to_neighbouring_bytes_is_noticed() {
    let good = [0x80u8, 0x00, 0x60, 0x70];
    for i in 0..3 {
        for a in 0..=255u8 {
            let mut hurt = good;
            hurt[i] ^= a;
            hurt[i + 1] ^= a.rotate_left(3) | 1;
            let verdict = MercuryMeter::check_connection_reply(&hurt);
            assert!(matches!(verdict, Err(MeterError::CrcMismatch { .. })));
        }
    }
}

#[test]
fn session_verdicts() {
    assert!(MercuryMeter::init_reply(&[0x00, 0x00, 0x12, 0x34]).is_ok());
    assert!(MercuryMeter::init_reply(&[0x00, 0xF0, 0x12, 0x34]).is_ok());
    let short = MercuryMeter::init_reply(&[0x00, 0x0A]);
    assert_eq!(short.unwrap_err().message(), "Response too short: [00, 0A]");
    let empty = MercuryMeter::init_reply(&[]);
    assert_eq!(empty.unwrap_err().message(), "Response too short: []");
    let refused = MercuryMeter::init_reply(&[0x00, 0x15, 0xC1, 0xB3]);
    assert_eq!(
        refused.unwrap_err().message(),
        "Meter returned Error Code: 15 (Bytes: [00, 15, C1, B3])"
    );
}

#[test]
fn messages_of_errors() {
    let line = |e: MeterError| e.message();
    assert_eq!(line(MeterError::Port { reason: "gone".to_string() }), "gone");
    assert_eq!(line(MeterError::NoResponse), "No response from meter");
    assert_eq!(line(MeterError::ShortCheck), "Response too short");
    assert_eq!(
        line(MeterError::CrcMismatch { computed: 0x0AB1, carried: 0xB001 }),
        format!("CRC Mismatch: {:04X} != {:04X}", 0x0AB1, 0xB001)
    );
    for code in 0..=255u8 {
        assert_eq!(line(MeterError::ErrorCode { code }), format!("Meter Error Code: {}", code));
    }
    assert_eq!(line(MeterError::ShortVoltage), "Short RX for Voltage");
    assert_eq!(line(MeterError::ShortReading), "Short RX");
    let reply: Vec<u8> = (0..=255).collect();
    assert_eq!(
        line(MeterError::ShortCosF { reply: reply.clone() }),
        format!("Response too short for CosF: {:02X?}", reply)
    );
    assert_eq!(
        line(MeterError::ShortReactivePower { reply: vec![0x9F] }),
        "Response too short for Reactive Power: [9F]"
    );
}

#[test]
fn three_byte_numbers() {
    let decode = |b: &[u8]| MercuryMeter::decode_b3f_u(b, 100);
    assert_eq!(decode(&[0x00, 0xC4, 0x55]), Reading { raw: 0x55C4, factor: 100 });
    assert_eq!(decode(&[0xFF, 0xFF, 0xFF]), Reading { raw: 0x3FFFFF, factor: 100 });
    assert_eq!(decode(&[0xC1, 0x02, 0x03]), Reading { raw: 0x010302, factor: 100 });
    assert_eq!(decode(&[0x01, 0x02, 0x03, 0x04]), Reading { raw: 0x010302, factor: 100 });
    assert_eq!(decode(&[0x01, 0x02]).raw, 0);
    assert_eq!(decode(&[]), Reading { raw: 0, factor: 1 });
}

#[test]
fn four_byte_numbers() {
    let decode = |b: &[u8]| MercuryMeter::decode_b4f_u(b, 1000);
    assert_eq!(
        decode(&[0x01, 0x02, 0x03, 0x04]),
        Reading { raw: 0x02010403, factor: 1000 }
    );
    assert_eq!(decode(&[0xFF; 4]).raw, u32::MAX);
    assert_eq!(decode(&[0x01, 0x02, 0x03]), Reading { raw: 0, factor: 1 });
}

#[test]
fn numbers_come_back_from_their_bytes() {
    for n in [0u32, 1, 255, 256, 65535, 65536, 0x123456, 0x3FFFFF] {
        for flags in 0..4u32 {
            let b = [(flags * 64 + n / 0x10000) as u8, n as u8, (n / 0x100) as u8];
            assert_eq!(MercuryMeter::decode_b3f_u(&b, 1).raw, n);
        }
    }
    for n in [0u32, 1, 0x12345678, u32::MAX] {
        let b = [(n >> 16) as u8, (n >> 24) as u8, n as u8, (n >> 8) as u8];
        assert_eq!(MercuryMeter::decode_b4f_u(&b, 1).raw, n);
    }
}

#[test]
fn readings_in_replies() {
    let resp: Vec<u8> = (0..18).collect();
    let u = MercuryMeter::get_u_reply(&resp[..11]).unwrap();
    assert_eq!(u.p1, Reading { raw: 0x010302, factor: 100 });
    assert_eq!(u.p2, Reading { raw: 0x040605, factor: 100 });
    assert_eq!(u.p3, Reading { raw: 0x070908, factor: 100 });
    let i = MercuryMeter::get_i_reply(&resp[..11]).unwrap();
    assert_eq!(i.p1, Reading { raw: 0x010302, factor: 1000 });
    assert_eq!(i.p3, Reading { raw: 0x070908, factor: 1000 });
    let cos_f = MercuryMeter::get_cos_f_reply(&resp[..14]).unwrap();
    assert_eq!(cos_f.sum, Reading { raw: 0x0A0C0B, factor: 1000 });
    assert_eq!(cos_f.p1, Reading { raw: 0x010302, factor: 1000 });
    let p = MercuryMeter::get_p_reply(&resp[..14]).unwrap();
    assert_eq!(p.sum, Reading { raw: 0x0A0C0B, factor: 100 });
    assert_eq!(p.p2, Reading { raw: 0x040605, factor: 100 });
    let s = MercuryMeter::get_s_reply(&resp[..14]).unwrap();
    assert_eq!(s.sum, Reading { raw: 0x0A0C0B, factor: 100 });
    assert_eq!(s.p3, Reading { raw: 0x070908, factor: 100 });
    assert_eq!(
        MercuryMeter::get_f_reply(&[0x00, 0x00, 0x88, 0x13]),
        Reading { raw: 5000, factor: 100 }
    );
    let w = MercuryMeter::get_w_reply(&resp).unwrap();
    assert_eq!(w.ap, Reading { raw: 0x02010403, factor: 1000 });
    assert_eq!(w.am, Reading { raw: 0x06050807, factor: 1000 });
    assert_eq!(w.rp, Reading { raw: 0x0A090C0B, factor: 1000 });
    assert_eq!(w.rm, Reading { raw: 0x0E0D100F, factor: 1000 });
}

#[test]
fn replies_that_are_too_short() {
    let resp = [0u8; 17];
    assert!(matches!(MercuryMeter::get_u_reply(&resp[..10]), Err(MeterError::ShortVoltage)));
    assert!(matches!(MercuryMeter::get_i_reply(&resp[..10]), Err(MeterError::ShortReading)));
    assert!(matches!(
        MercuryMeter::get_cos_f_reply(&resp[..13]),
        Err(MeterError::ShortCosF { reply }) if reply == vec![0u8; 13]
    ));
    assert!(matches!(MercuryMeter::get_p_reply(&resp[..13]), Err(MeterError::ShortReading)));
    assert!(matches!(
        MercuryMeter::get_s_reply(&resp[..13]),
        Err(MeterError::ShortReactivePower { reply }) if reply == vec![0u8; 13]
    ));
    assert!(matches!(MercuryMeter::get_w_reply(&resp), Err(MeterError::ShortReading)));
}
