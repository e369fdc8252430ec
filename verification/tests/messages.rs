use mercury_monitor::decode::Reading;
use mercury_monitor::discovery::{config_fields, config_payload, discovery_configs};
use mercury_monitor::meter::MercuryMeter;
use mercury_monitor::mqtt::{
    make_config_topic, make_state_base, make_state_topic, make_unique_id, Qos,
};
use mercury_monitor::report::{state_message, state_updates};
use mercury_monitor::sensor::{sensor_definitions, sensor_readings};
use mercury_monitor::snapshot::{Collector, FullMeterSnapshot};

const SUFFIXES: [&str; 24] = [
    "volt_p1", "volt_p2", "volt_p3", "amp_p1", "amp_p2", "amp_p3", "pow_p1", "pow_p2", "pow_p3",
    "pow_sum", "freq", "cos_f_sum", "cos_f_p1", "cos_f_p2", "cos_f_p3", "reac_p1", "reac_p2",
    "reac_p3", "reac_sum", "energy_total", "energy_day", "energy_night", "energy_yesterday",
    "energy_today",
];

fn snapshot() -> FullMeterSnapshot {
    let mut collector = Collector::new(MercuryMeter::new(0));
    for k in 0..11u8 {
        let bytes: Vec<u8> = (0..18u8).map(|b| b + 16 * k).collect();
        collector = collector.absorb(Ok(bytes)).0;
    }
    collector.finish().unwrap()
}

#[test]
fn topics() {
    assert_eq!(make_state_base("1", "m2"), "/ssn/acc/1/obj/power/device/m2/");
    assert_eq!(make_state_topic("1", "m2", "freq"), "/ssn/acc/1/obj/power/device/m2/freq");
    assert_eq!(make_config_topic("m2", "freq"), "homeassistant/sensor/m2_freq/config");
    assert_eq!(make_unique_id("m2", "freq"), "m2_freq");
}

#[test]
fn table_of_sensors() {
    let table = sensor_definitions();
    let suffixes: Vec<&str> = table.iter().map(|d| d.suffix).collect();
    assert_eq!(suffixes, SUFFIXES);
    assert_eq!(
        (table[9].name, table[9].unit, table[9].dev_class),
        ("Total Active Power", "W", "power")
    );
    assert_eq!(
        (table[11].name, table[11].unit, table[11].dev_class),
        ("Total Power Factor", "", "power_factor")
    );
    assert_eq!(
        (table[23].name, table[23].unit, table[23].dev_class),
        ("Today Consumed Energy", "kWh", "energy")
    );
}

#[test]
fn fields_of_an_announcement() {
    let fields = config_fields("mercury_02", "1", &sensor_definitions()[0]);
    assert_eq!(fields.name, "Voltage Phase 1 mercury_02");
    assert_eq!(fields.unique_id, "mercury_02_volt_p1");
    assert_eq!(fields.stat_t, "/ssn/acc/1/obj/power/device/mercury_02/volt_p1");
    assert_eq!(fields.unit_of_measurement, "V");
    assert_eq!(fields.dev_cla, "voltage");
}

#[test]
fn payload_of_an_announcement() {
    let fields = config_fields("mercury_02", "1", &sensor_definitions()[0]);
    assert_eq!(
        config_payload("mercury_02", &fields),
        concat(&[
            "{\"dev_cla\":\"voltage\",",
            "\"device\":{\"identifiers\":[\"mercury_02\"],\"manufacturer\":\"Elster\",",
            "\"model\":\"Mercury 236\",\"name\":\"Mercury Meter mercury_02\"},",
            "\"name\":\"Voltage Phase 1 mercury_02\",",
            "\"stat_t\":\"/ssn/acc/1/obj/power/device/mercury_02/volt_p1\",",
            "\"unique_id\":\"mercury_02_volt_p1\",",
            "\"unit_of_measurement\":\"V\"}",
        ])
    );
}

fn concat(parts: &[&str]) -> String {
    parts.concat()
}

#[test]
fn payload_escapes_what_json_must() {
    let id = "a\"b\\c\n";
    let fields = config_fields(id, "\u{1}", &sensor_definitions()[10]);
    let payload = config_payload(id, &fields);
    let parsed: serde_json::Value = serde_json::from_str(&payload).unwrap();
    assert_eq!(parsed["unique_id"], "a\"b\\c\n_freq");
    assert_eq!(parsed["stat_t"], "/ssn/acc/\u{1}/obj/power/device/a\"b\\c\n/freq");
    assert_eq!(parsed["device"]["identifiers"][0], id);
    assert_eq!(parsed["device"]["name"], "Mercury Meter a\"b\\c\n");
    assert!(payload.contains("a\\\"b\\\\c\\n_freq"));
}

#[test]
fn every_sensor_is_announced() {
    let messages = discovery_configs("m2", "acc");
    assert_eq!(messages.len(), 24);
    for (message, suffix) in messages.iter().zip(SUFFIXES.iter()) {
        assert_eq!(message.topic, format!("homeassistant/sensor/m2_{}/config", suffix));
        assert_eq!(message.qos, Qos::AtLeastOnce);
        assert!(message.retain);
        let parsed: serde_json::Value = serde_json::from_str(&message.payload).unwrap();
        assert_eq!(parsed.as_object().unwrap().len(), 6);
        assert_eq!(parsed["unique_id"], format!("m2_{}", suffix));
        assert_eq!(parsed["device"].as_object().unwrap().len(), 4);
        assert_eq!(parsed["device"]["model"], "Mercury 236");
        assert_eq!(parsed["device"]["manufacturer"], "Elster");
    }
}

#[test]
fn announced_topics_are_those_reported_under() {
    let messages = discovery_configs("m2", "acc");
    let updates = state_updates("acc", "m2", &snapshot());
    assert_eq!(updates.len(), 24);
    for (message, update) in messages.iter().zip(updates.iter()) {
        let parsed: serde_json::Value = serde_json::from_str(&message.payload).unwrap();
        assert_eq!(parsed["stat_t"], update.topic);
    }
}

#[test]
fn sensors_do_not_share_topics() {
    let messages = discovery_configs("m2", "acc");
    let updates = state_updates("acc", "m2", &snapshot());
    for i in 0..24 {
        for j in 0..i {
            assert_ne!(messages[i].topic, messages[j].topic);
            assert_ne!(updates[i].topic, updates[j].topic);
        }
    }
}

#[test]
fn readings_go_to_their_sensors() {
    let s = snapshot();
    let expected = [
        s.voltage.p1,
        s.voltage.p2,
        s.voltage.p3,
        s.current.p1,
        s.current.p2,
        s.current.p3,
        s.active_power.p1,
        s.active_power.p2,
        s.active_power.p3,
        s.active_power.sum,
        s.frequency,
        s.cos_f.sum,
        s.cos_f.p1,
        s.cos_f.p2,
        s.cos_f.p3,
        s.reactive_power.p1,
        s.reactive_power.p2,
        s.reactive_power.p3,
        s.reactive_power.sum,
        s.total_consumed_kw,
        s.tariff_day_kw,
        s.tariff_night_kw,
        s.yesterday_kw,
        s.today_kw,
    ];
    let readings = sensor_readings(&s);
    for i in 0..24 {
        assert_eq!(readings[i].suffix, SUFFIXES[i]);
        assert_eq!(readings[i].value, expected[i]);
    }
    assert_eq!(expected[0], Some(Reading { raw: 0x010302, factor: 100 }));
}

#[test]
fn readings_are_published_once_and_not_kept() {
    for update in state_updates("acc", "m2", &snapshot()) {
        let topic = update.topic.clone();
        let message = state_message(update.topic, Some("1".to_string()));
        assert_eq!(message.topic, topic);
        assert_eq!(message.qos, Qos::AtMostOnce);
        assert!(!message.retain);
    }
}
