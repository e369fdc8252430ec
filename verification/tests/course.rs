use mercury_monitor::decode::Reading;
use mercury_monitor::error::MeterError;
use mercury_monitor::exchange::{Action, Event, Exchange};
use mercury_monitor::meter::MercuryMeter;
use mercury_monitor::report::{state_message, state_updates, summary};
use mercury_monitor::session::{Notice, Session};
use mercury_monitor::snapshot::{Collector, FullMeterSnapshot, PhaseData, Query};

/// A reply of eighteen bytes, of which `seed` tells the first reading.
fn reply(seed: u8) -> Vec<u8> {
    let mut bytes = vec![0u8; 18];
    bytes[2] = seed;
    bytes[3] = seed;
    bytes
}

fn collect(replies: Vec<Result<Vec<u8>, MeterError>>) -> (FullMeterSnapshot, Vec<String>) {
    let mut collector = Collector::new(MercuryMeter::new(0));
    let mut errors = Vec::new();
    for reply in replies {
        assert!(collector.command().is_some());
        let (next, error) = collector.absorb(reply);
        collector = next;
        if let Some(e) = error {
            errors.push(e.message());
        }
    }
    assert!(collector.command().is_none());
    (collector.finish().unwrap(), errors)
}

fn all_good() -> Vec<Result<Vec<u8>, MeterError>> {
    (0..11u8).map(|k| Ok(reply(k + 1))).collect()
}

#[test]
fn exchange_takes_its_course() {
    let mut x = Exchange::new(vec![1, 2, 3]);
    assert_eq!(x.action(), Action::Discard { limit: 128 });
    x = x.advance(Event::Discarded { count: 128 });
    assert_eq!(x.action(), Action::Discard { limit: 128 });
    x = x.advance(Event::Discarded { count: 7 });
    assert_eq!(x.action(), Action::Discard { limit: 128 });
    x = x.advance(Event::DiscardFailed);
    assert_eq!(x.action(), Action::Pause { millis: 50 });
    x = x.advance(Event::Rested);
    assert_eq!(x.action(), Action::Transmit);
    assert_eq!(x.command(), &[1, 2, 3]);
    x = x.advance(Event::Sent);
    assert_eq!(x.action(), Action::Pause { millis: 250 });
    x = x.advance(Event::Rested);
    assert_eq!(x.action(), Action::Receive { limit: 256 });
    x = x.advance(Event::Received { buffer: vec![9, 8, 7, 0, 0], count: 3 });
    assert_eq!(x.action(), Action::Finish);
    assert_eq!(x.outcome().unwrap().unwrap(), vec![9, 8, 7]);
}

#[test]
fn exchange_on_a_quiet_line() {
    let x = Exchange::new(vec![]).advance(Event::Discarded { count: 0 });
    assert_eq!(x.action(), Action::Pause { millis: 50 });
    assert!(x.outcome().is_none());
}

#[test]
fn exchange_fails_when_the_port_does() {
    let sending = || {
        Exchange::new(vec![1]).advance(Event::DiscardFailed).advance(Event::Rested)
    };
    let failed = sending().advance(Event::SendFailed { reason: "broken pipe".to_string() });
    assert_eq!(failed.action(), Action::Finish);
    assert_eq!(failed.outcome().unwrap().unwrap_err().message(), "broken pipe");
    let reading = || sending().advance(Event::Sent).advance(Event::Rested);
    let silent = reading().advance(Event::Received { buffer: vec![0; 256], count: 0 });
    assert!(matches!(silent.outcome(), Some(Err(MeterError::NoResponse))));
    let late = reading().advance(Event::ReceiveFailed { reason: "timed out".to_string() });
    assert_eq!(late.outcome().unwrap().unwrap_err().message(), "timed out");
}

#[test]
fn reply_is_cut_to_what_was_read() {
    assert_eq!(Exchange::reply(vec![1, 2, 3], 2).unwrap(), vec![1, 2]);
    assert_eq!(Exchange::reply(vec![1, 2, 3], 9).unwrap(), vec![1, 2, 3]);
}

#[test]
fn cycle_asks_in_order() {
    let meter = MercuryMeter::new(3);
    let expected = vec![
        meter.get_u_cmd(),
        meter.get_i_cmd(),
        meter.get_cos_f_cmd(),
        meter.get_p_cmd(),
        meter.get_s_cmd(),
        meter.get_f_cmd(),
        meter.get_w_cmd(0, 0, 0),
        meter.get_w_cmd(0, 0, 1),
        meter.get_w_cmd(0, 0, 2),
        meter.get_w_cmd(5, 0, 0),
        meter.get_w_cmd(4, 0, 0),
    ];
    let mut collector = Collector::new(meter);
    assert_eq!(collector.query(), Some(Query::Voltage));
    for command in expected {
        assert_eq!(collector.command(), Some(command));
        collector = collector.absorb(Ok(reply(1))).0;
    }
    assert_eq!(collector.query(), None);
}

#[test]
fn unfinished_cycle_has_no_snapshot() {
    assert!(Collector::new(MercuryMeter::new(0)).finish().is_none());
}

#[test]
fn complete_cycle_fills_everything_but_the_angles() {
    let (s, errors) = collect(all_good());
    assert!(errors.is_empty());
    assert_eq!(s.voltage.p1, Some(Reading { raw: 0x0101, factor: 100 }));
    assert_eq!(s.current.p1, Some(Reading { raw: 0x0202, factor: 1000 }));
    assert_eq!(s.cos_f.p1, Some(Reading { raw: 0x0303, factor: 1000 }));
    assert_eq!(s.active_power.p1, Some(Reading { raw: 0x0404, factor: 100 }));
    assert_eq!(s.reactive_power.p1, Some(Reading { raw: 0x0505, factor: 100 }));
    assert_eq!(s.frequency, Some(Reading { raw: 0x0606, factor: 100 }));
    assert_eq!(s.total_consumed_kw, Some(Reading { raw: 0x07000007, factor: 1000 }));
    assert_eq!(s.tariff_day_kw, Some(Reading { raw: 0x08000008, factor: 1000 }));
    assert_eq!(s.tariff_night_kw, Some(Reading { raw: 0x09000009, factor: 1000 }));
    assert_eq!(s.yesterday_kw, Some(Reading { raw: 0x0A00000A, factor: 1000 }));
    assert_eq!(s.today_kw, Some(Reading { raw: 0x0B00000B, factor: 1000 }));
    assert_eq!(s.phase_angles, PhaseData { p1: None, p2: None, p3: None });
    assert!(state_updates("1", "m", &s).iter().all(|u| u.value.is_some()));
    assert_eq!(summary(&s), Some((s.voltage.p1.unwrap(), s.current.p1.unwrap())));
}

#[test]
fn readings_keep_their_scale() {
    let (s, _) = collect(all_good());
    let factors: Vec<u32> =
        state_updates("1", "m", &s).iter().map(|u| u.value.unwrap().factor).collect();
    let mut expected = vec![1000u32; 24];
    for i in [0, 1, 2, 6, 7, 8, 9, 10, 15, 16, 17, 18] {
        expected[i] = 100;
    }
    assert_eq!(factors, expected);
}

#[test]
fn one_bad_reply_does_not_spoil_the_cycle() {
    let (good, _) = collect(all_good());
    let missing = [3, 3, 4, 4, 4, 1, 1, 1, 1, 1, 1];
    for k in 0..11 {
        let mut replies = all_good();
        replies[k] = Err(MeterError::NoResponse);
        let (s, errors) = collect(replies);
        assert_eq!(errors, vec!["No response from meter".to_string()]);
        let before = state_updates("1", "m", &good);
        let after = state_updates("1", "m", &s);
        let mut lost = 0;
        for (a, b) in before.iter().zip(after.iter()) {
            if b.value.is_none() {
                lost += 1;
            } else {
                assert_eq!(a.value, b.value);
            }
        }
        assert_eq!(lost, missing[k]);
        assert_eq!(summary(&s).is_none(), k < 2);
    }
}

#[test]
fn short_replies_are_told_apart() {
    let mut replies: Vec<Result<Vec<u8>, MeterError>> = (0..11).map(|_| Ok(vec![0u8; 2])).collect();
    replies[5] = Ok(vec![0; 4]);
    let (s, errors) = collect(replies);
    assert_eq!(s.frequency, Some(Reading { raw: 0, factor: 100 }));
    assert_eq!(
        errors,
        vec![
            "Short RX for Voltage",
            "Short RX",
            "Response too short for CosF: [00, 00]",
            "Short RX",
            "Response too short for Reactive Power: [00, 00]",
            "Short RX",
            "Short RX",
            "Short RX",
            "Short RX",
            "Short RX",
        ]
    );
}

#[test]
fn verified_meter_is_opened_and_polled() {
    let meter = MercuryMeter::new(0);
    let session = Session::new(meter);
    assert_eq!(session.command(), Some(meter.check_connection_cmd()));
    let (session, notice) = session.absorb(Ok(vec![0x00, 0x00, 0x01, 0xB0]));
    assert!(matches!(notice, Notice::Verified));
    assert_eq!(session.command(), Some(meter.init_cmd()));
    let (session, notice) = session.absorb(Ok(vec![0x00, 0x05, 0xC1, 0xB3]));
    assert!(matches!(notice, Notice::Opened { verdict: Err(MeterError::Refused { status: 5, .. }) }));
    assert_eq!(session.command(), Some(meter.get_u_cmd()));
    let (session, notice) = session.absorb(Err(MeterError::NoResponse));
    assert!(matches!(notice, Notice::FetchFailed { error: MeterError::NoResponse }));
    let (session, notice) = session.absorb(Ok(reply(1)));
    assert!(matches!(notice, Notice::Fetched));
    assert_eq!(session.command(), Some(meter.get_cos_f_cmd()));
    let (session, snapshot) = session.next_cycle();
    assert!(snapshot.is_none());
    assert_eq!(session.command(), Some(meter.get_cos_f_cmd()));
}

#[test]
fn unverified_meter_is_polled_all_the_same() {
    let meter = MercuryMeter::new(0);
    let (session, notice) = Session::new(meter).absorb(Ok(vec![0x00, 0x00, 0x00, 0x00]));
    assert!(matches!(notice, Notice::CheckFailed { error: MeterError::CrcMismatch { .. } }));
    assert_eq!(session.command(), Some(meter.get_u_cmd()));
    let (session, notice) = Session::new(meter).absorb(Err(MeterError::NoResponse));
    assert!(matches!(notice, Notice::CheckFailed { error: MeterError::NoResponse }));
    assert_eq!(session.command(), Some(meter.get_u_cmd()));
}

#[test]
fn cycles_follow_each_other() {
    let meter = MercuryMeter::new(0);
    let mut session = Session::new(meter).absorb(Err(MeterError::NoResponse)).0;
    for round in 1..3u8 {
        for k in 0..11 {
            let heard = Ok(reply(round));
            assert!(session.command().is_some(), "{}", k);
            session = session.absorb(heard).0;
        }
        assert!(session.command().is_none());
        let (next, snapshot) = session.next_cycle();
        session = next;
        let raw = round as u32 * 0x0101;
        assert_eq!(snapshot.unwrap().voltage.p1, Some(Reading { raw, factor: 100 }));
    }
    assert_eq!(session.command(), Some(meter.get_u_cmd()));
}

#[test]
fn short_frequency_reply_does_not_end_the_cycle() {
    let (good, _) = collect(all_good());
    for n in 0..4 {
        let mut replies = all_good();
        replies[5] = Ok(vec![0; n]);
        let (s, errors) = collect(replies);
        assert_eq!(errors, vec!["Short RX".to_string()]);
        assert_eq!(s, FullMeterSnapshot { frequency: None, ..good });
    }
    let mut replies = all_good();
    replies[5] = Ok(vec![0, 0, 0x88, 0x13]);
    let (s, errors) = collect(replies);
    assert!(errors.is_empty());
    assert_eq!(s.frequency, Some(Reading { raw: 5000, factor: 100 }));
}

#[test]
fn session_goes_on_after_empty_replies() {
    let mut session = Session::new(MercuryMeter::new(0)).absorb(Ok(vec![])).0;
    for _ in 0..11 {
        let (next, notice) = session.absorb(Ok(vec![]));
        session = next;
        assert!(matches!(notice, Notice::FetchFailed { .. }));
    }
    let snapshot = session.next_cycle().1.unwrap();
    assert!(state_updates("1", "m", &snapshot).iter().all(|u| u.value.is_none()));
}

#[test]
fn missing_reading_is_unavailable() {
    let message = state_message("t".to_string(), None);
    assert_eq!(message.payload, "unavailable");
    let message = state_message("t".to_string(), Some("229.5".to_string()));
    assert_eq!(message.topic, "t");
    assert_eq!(message.payload, "229.5");
    assert!(!message.retain);
}
