//! Reporting the readings of a cycle.

use vstd::prelude::*;

use crate::decode::Reading;
use crate::mqtt::{make_state_base, state_base, state_topic, Message, Publish, Qos};
use crate::sensor::{
    definitions, law_reading_by_place, reading_of, sensor_readings, SensorReading, SENSOR_COUNT,
};
use crate::snapshot::{
    cycle, fault_in, law_active_power_is_read, law_cos_f_is_read, law_current_is_read,
    law_frequency_is_read, law_reactive_power_is_read, law_reply_stays_in_its_part,
    law_tariff_day_kw_is_read, law_tariff_night_kw_is_read, law_today_kw_is_read,
    law_total_consumed_kw_is_read, law_voltage_is_read, law_yesterday_kw_is_read, snapshot_of,
    with_part, FullMeterSnapshot, Heard, CYCLE_LENGTH,
};

verus! {

/// A reading on its way to its topic; nothing where it is missing.
#[derive(Debug)]
pub struct StateUpdate {
    pub topic: String,
    pub value: Option<Reading>,
}

/// What is published for a reading: the number as shown, or that there is none.
pub open spec fn state_payload(shown: Option<Seq<char>>) -> Seq<char> {
    match shown {
        Some(number) => number,
        None => "unavailable"@,
    }
}

/// The number as shown, as a sequence.
pub open spec fn shown_text(shown: Option<String>) -> Option<Seq<char>> {
    match shown {
        Some(number) => Some(number@),
        None => None,
    }
}

/// The updates for all sensors of a meter, in the order of the table.
pub fn state_updates(mqtt_acc: &str, device_id: &str, s: &FullMeterSnapshot) -> (updates: Vec<
    StateUpdate,
>)
    ensures
        updates@.len() == SENSOR_COUNT,
        forall|i: int|
            0 <= i < SENSOR_COUNT ==> (#[trigger] updates@[i]).topic@ == state_topic(
                mqtt_acc@,
                device_id@,
                definitions()[i].suffix,
            ) && updates@[i].value == reading_of(*s, i),
        updates@.len() == 24,
        forall|i: int|
            0 <= i < 24 ==> (#[trigger] updates@[i]).topic@ == "/ssn/acc/"@ + mqtt_acc@
                + "/obj/power/device/"@ + device_id@ + "/"@ + definitions()[i].suffix,
        updates@[0].value == s.voltage.p1,
        updates@[1].value == s.voltage.p2,
        updates@[2].value == s.voltage.p3,
        updates@[3].value == s.current.p1,
        updates@[4].value == s.current.p2,
        updates@[5].value == s.current.p3,
        updates@[6].value == s.active_power.p1,
        updates@[7].value == s.active_power.p2,
        updates@[8].value == s.active_power.p3,
        updates@[9].value == s.active_power.sum,
        updates@[10].value == s.frequency,
        updates@[11].value == s.cos_f.sum,
        updates@[12].value == s.cos_f.p1,
        updates@[13].value == s.cos_f.p2,
        updates@[14].value == s.cos_f.p3,
        updates@[15].value == s.reactive_power.p1,
        updates@[16].value == s.reactive_power.p2,
        updates@[17].value == s.reactive_power.p3,
        updates@[18].value == s.reactive_power.sum,
        updates@[19].value == s.total_consumed_kw,
        updates@[20].value == s.tariff_day_kw,
        updates@[21].value == s.tariff_night_kw,
        updates@[22].value == s.yesterday_kw,
        updates@[23].value == s.today_kw,
{
    proof {
        law_reading_by_place(*s);
    }
    let base: String = make_state_base(mqtt_acc, device_id);
    let readings: Vec<SensorReading> = sensor_readings(s);
    let mut updates: Vec<StateUpdate> = Vec::new();
    for i in 0..readings.len()
        invariant
            base@ == state_base(mqtt_acc@, device_id@),
            readings@.len() == SENSOR_COUNT,
            forall|k: int|
                0 <= k < SENSOR_COUNT ==> (#[trigger] readings@[k]).suffix@
                    == definitions()[k].suffix && readings@[k].value == reading_of(*s, k),
            updates@.len() == i,
            forall|k: int|
                0 <= k < i ==> (#[trigger] updates@[k]).topic@ == state_topic(
                    mqtt_acc@,
                    device_id@,
                    definitions()[k].suffix,
                ) && updates@[k].value == reading_of(*s, k),
    {
        let reading: SensorReading = readings[i];
        proof {
            assert(readings@[i as int].suffix@ == definitions()[i as int].suffix);
        }
        let mut topic: String = base.clone();
        topic.append(reading.suffix);
        updates.push(StateUpdate { topic, value: reading.value });
    }
    updates
}

/// The message that carries a reading, given the number as shown: not kept by the
/// broker, and not repeated.
pub fn state_message(topic: String, shown: Option<String>) -> (message: Publish)
    ensures
        message@ == (Message {
            topic: topic@,
            qos: Qos::AtMostOnce,
            retain: false,
            payload: state_payload(shown_text(shown)),
        }),
        message.topic@ == topic@,
        message.qos is AtMostOnce,
        !message.retain,
        match shown {
            Some(number) => message.payload@ == number@,
            None => message.payload@ == "unavailable"@,
        },
{
    let payload: String = match shown {
        Some(number) => number,
        None => "unavailable".to_owned(),
    };
    Publish { topic, qos: Qos::AtMostOnce, retain: false, payload }
}

/// The voltage and current of the first phase, if both are there.
pub open spec fn critical_of(s: FullMeterSnapshot) -> Option<(Reading, Reading)> {
    match (s.voltage.p1, s.current.p1) {
        (Some(v), Some(i)) => Some((v, i)),
        _ => None,
    }
}

/// The voltage and current of the first phase, if both were read: what the log
/// shows of a snapshot. Without them the snapshot counts as partially failed.
pub fn summary(s: &FullMeterSnapshot) -> (critical: Option<(Reading, Reading)>)
    ensures
        critical == critical_of(*s),
        critical == match (s.voltage.p1, s.current.p1) {
            (Some(v), Some(i)) => Some((v, i)),
            _ => None,
        },
{
    match (s.voltage.p1, s.current.p1) {
        (Some(v), Some(i)) => Some((v, i)),
        _ => None,
    }
}

/// The place in the cycle of the parameter that a sensor's reading comes with.
pub open spec fn query_behind(i: int) -> int {
    if i < 3 {
        0
    } else if i < 6 {
        1
    } else if i < 10 {
        3
    } else if i < 11 {
        5
    } else if i < 15 {
        2
    } else if i < 19 {
        4
    } else {
        i - 13
    }
}

/// After a complete cycle, a sensor has a reading exactly when the parameter behind
/// it could be read.
pub proof fn law_reading_iff_read(replies: Seq<Heard>, i: int)
    requires
        replies.len() == CYCLE_LENGTH,
        0 <= i < SENSOR_COUNT,
    ensures
        reading_of(snapshot_of(replies), i) is Some <==> fault_in(
            cycle()[query_behind(i)],
            replies[query_behind(i)],
        ) is None,
{
}

/// The factor of the readings of a sensor: hundredths for voltages, powers and the
/// frequency, thousandths for everything else.
pub open spec fn factor_of(i: int) -> u32 {
    if i < 3 || 6 <= i < 11 || 15 <= i < 19 {
        100
    } else {
        1000
    }
}

/// The readings of a sensor always come in the same parts of its unit, and never in
/// parts of zero.
pub proof fn law_scale_is_fixed(replies: Seq<Heard>, i: int)
    requires
        replies.len() == CYCLE_LENGTH,
        0 <= i < SENSOR_COUNT,
    ensures
        reading_of(snapshot_of(replies), i) matches Some(reading) ==> reading.factor == factor_of(
            i,
        ),
{
}

/// What is published for a reading is the number itself, or the word that stands for a
/// missing one.
pub proof fn law_missing_is_unavailable(number: Seq<char>)
    ensures
        state_payload(Some(number)) == number,
        state_payload(None) == "unavailable"@,
{
}

/// After a complete cycle, a sensor shows the bytes that the meter sent for it. The first
/// three show the phases of the reply to the first query, three bytes each from byte 1
/// on, the next three those of the second; then come the phases and the total of the
/// fourth, the frequency of the sixth, the total and the phases of the third, the phases
/// and the total of the fifth, and the first counters of the last five.
pub proof fn law_sensor_shows_its_bytes(replies: Seq<Heard>, i: int)
    requires
        replies.len() == CYCLE_LENGTH,
        0 <= i < SENSOR_COUNT,
    ensures
        ({
            let (query, at) = if i < 3 {
                (0, 1 + 3 * i)
            } else if i < 6 {
                (1, 1 + 3 * (i - 3))
            } else if i < 10 {
                (3, 1 + 3 * (i - 6))
            } else if i == 10 {
                (5, 2)
            } else if i == 11 {
                (2, 10)
            } else if i < 15 {
                (2, 1 + 3 * (i - 12))
            } else if i < 19 {
                (4, 1 + 3 * (i - 15))
            } else {
                (i - 13, 1int)
            };
            reading_of(snapshot_of(replies), i) matches Some(reading) ==> {
                &&& replies[query] matches Ok(r)
                &&& i == 10 ==> reading.raw == r[at] + 256 * r[at + 1]
                &&& i >= 19 ==> reading.raw == r[at + 1] * 0x1000000 + r[at] * 0x10000 + r[at + 3]
                    * 0x100 + r[at + 2]
                &&& i != 10 && i < 19 ==> reading.raw == (r[at] as int % 64) * 0x10000 + r[at + 2]
                    * 0x100 + r[at + 1]
                &&& i < 3 || 6 <= i <= 10 || 15 <= i < 19 ==> reading.factor == 100
                &&& 3 <= i < 6 || 11 <= i < 15 || i >= 19 ==> reading.factor == 1000
            }
        }),
{
    law_reading_by_place(snapshot_of(replies));
    law_voltage_is_read(replies);
    law_current_is_read(replies);
    law_cos_f_is_read(replies);
    law_active_power_is_read(replies);
    law_reactive_power_is_read(replies);
    law_frequency_is_read(replies);
    law_total_consumed_kw_is_read(replies);
    law_tariff_day_kw_is_read(replies);
    law_tariff_night_kw_is_read(replies);
    law_yesterday_kw_is_read(replies);
    law_today_kw_is_read(replies);
}

/// After a complete cycle, a sensor has a reading exactly when the exchange behind it
/// brought enough bytes: eleven for a voltage or a current, fourteen for a power or a
/// power factor, four for the frequency and eighteen for an energy.
pub proof fn law_sensor_needs_its_bytes(replies: Seq<Heard>, i: int)
    requires
        replies.len() == CYCLE_LENGTH,
        0 <= i < SENSOR_COUNT,
    ensures
        i < 3 ==> (reading_of(snapshot_of(replies), i) is Some <==> (replies[0] matches Ok(r)
            && r.len() >= 11)),
        3 <= i < 6 ==> (reading_of(snapshot_of(replies), i) is Some <==> (replies[1] matches Ok(r)
            && r.len() >= 11)),
        6 <= i < 10 ==> (reading_of(snapshot_of(replies), i) is Some <==> (replies[3] matches Ok(r)
            && r.len() >= 14)),
        i == 10 ==> (reading_of(snapshot_of(replies), i) is Some <==> (replies[5] matches Ok(r)
            && r.len() >= 4)),
        11 <= i < 15 ==> (reading_of(snapshot_of(replies), i) is Some <==> (
        replies[2] matches Ok(r) && r.len() >= 14)),
        15 <= i < 19 ==> (reading_of(snapshot_of(replies), i) is Some <==> (
        replies[4] matches Ok(r) && r.len() >= 14)),
        19 <= i ==> (reading_of(snapshot_of(replies), i) is Some <==> (
        replies[i - 13] matches Ok(r) && r.len() >= 18)),
{
}

/// What the log shows of a complete cycle: the numbers in bytes 1 to 3 of the replies to
/// the first and to the second query, if both have eleven bytes or more.
pub proof fn law_summary_by_bytes(replies: Seq<Heard>)
    requires
        replies.len() == CYCLE_LENGTH,
    ensures
        match critical_of(snapshot_of(replies)) {
            Some((voltage, current)) => {
                &&& replies[0] matches Ok(r)
                &&& r.len() >= 11
                &&& voltage.factor == 100
                &&& voltage.raw == (r[1] as int % 64) * 0x10000 + r[3] * 0x100 + r[2]
                &&& replies[1] matches Ok(q)
                &&& q.len() >= 11
                &&& current.factor == 1000
                &&& current.raw == (q[1] as int % 64) * 0x10000 + q[3] * 0x100 + q[2]
            },
            None => !(replies[0] matches Ok(r) && r.len() >= 11) || !(replies[1] matches Ok(r)
                && r.len() >= 11),
        },
{
    law_voltage_is_read(replies);
    law_current_is_read(replies);
}

/// A part of a snapshot concerns no sensor but those behind it.
proof fn lemma_other_part(base: FullMeterSnapshot, q: int, other: FullMeterSnapshot, i: int)
    requires
        0 <= q < CYCLE_LENGTH,
        0 <= i < SENSOR_COUNT,
        query_behind(i) != q,
    ensures
        reading_of(with_part(base, q, other), i) == reading_of(base, i),
{
}

/// A failed exchange makes the sensors behind it unavailable and leaves the readings
/// of all others as they would have been.
pub proof fn law_failure_is_local(replies: Seq<Heard>, q: int, i: int, reply: Heard)
    requires
        replies.len() == CYCLE_LENGTH,
        0 <= q < CYCLE_LENGTH,
        0 <= i < SENSOR_COUNT,
        fault_in(cycle()[q], reply) is Some,
    ensures
        query_behind(i) == q ==> reading_of(snapshot_of(replies.update(q, reply)), i) is None,
        query_behind(i) != q ==> reading_of(snapshot_of(replies.update(q, reply)), i)
            == reading_of(snapshot_of(replies), i),
{
    law_reading_iff_read(replies.update(q, reply), i);
    if query_behind(i) != q {
        law_reply_stays_in_its_part(replies, q, reply);
        lemma_other_part(snapshot_of(replies), q, snapshot_of(replies.update(q, reply)), i);
    }
}

} // verus!
