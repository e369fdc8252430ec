//! The sensors that are announced to the home and reported to it.

use vstd::prelude::*;

use crate::decode::Reading;
use crate::snapshot::FullMeterSnapshot;

verus! {

/// How a sensor is announced.
#[derive(Debug, Clone, Copy)]
pub struct SensorDefinition {
    /// What tells this sensor from the others of the same meter.
    pub suffix: &'static str,
    /// The name shown, without that of the meter.
    pub name: &'static str,
    /// The unit of its readings.
    pub unit: &'static str,
    /// The kind of quantity.
    pub dev_class: &'static str,
}

/// A [`SensorDefinition`] with its texts as sequences.
pub struct Definition {
    pub suffix: Seq<char>,
    pub name: Seq<char>,
    pub unit: Seq<char>,
    pub dev_class: Seq<char>,
}

impl View for SensorDefinition {
    type V = Definition;

    open spec fn view(&self) -> Definition {
        Definition {
            suffix: self.suffix@,
            name: self.name@,
            unit: self.unit@,
            dev_class: self.dev_class@,
        }
    }
}

/// A reading with the sensor that it belongs to; nothing where it is missing.
#[derive(Debug, Clone, Copy)]
pub struct SensorReading {
    pub suffix: &'static str,
    pub value: Option<Reading>,
}

/// The number of sensors.
pub const SENSOR_COUNT: usize = 24;

/// One row of the table of sensors.
pub open spec fn definition(
    suffix: Seq<char>,
    name: Seq<char>,
    unit: Seq<char>,
    dev_class: Seq<char>,
) -> Definition {
    Definition { suffix, name, unit, dev_class }
}

/// The table of sensors, in the order in which they are announced.
pub open spec fn definitions() -> Seq<Definition> {
    seq![
        definition("volt_p1"@, "Voltage Phase 1"@, "V"@, "voltage"@),
        definition("volt_p2"@, "Voltage Phase 2"@, "V"@, "voltage"@),
        definition("volt_p3"@, "Voltage Phase 3"@, "V"@, "voltage"@),
        definition("amp_p1"@, "Current Phase 1"@, "A"@, "current"@),
        definition("amp_p2"@, "Current Phase 2"@, "A"@, "current"@),
        definition("amp_p3"@, "Current Phase 3"@, "A"@, "current"@),
        definition("pow_p1"@, "Active Power Phase 1"@, "W"@, "power"@),
        definition("pow_p2"@, "Active Power Phase 2"@, "W"@, "power"@),
        definition("pow_p3"@, "Active Power Phase 3"@, "W"@, "power"@),
        definition("pow_sum"@, "Total Active Power"@, "W"@, "power"@),
        definition("freq"@, "Frequency"@, "Hz"@, "frequency"@),
        definition("cos_f_sum"@, "Total Power Factor"@, ""@, "power_factor"@),
        definition("cos_f_p1"@, "Power Factor Phase 1"@, ""@, "power_factor"@),
        definition("cos_f_p2"@, "Power Factor Phase 2"@, ""@, "power_factor"@),
        definition("cos_f_p3"@, "Power Factor Phase 3"@, ""@, "power_factor"@),
        definition("reac_p1"@, "Reactive Power Phase 1"@, "var"@, "reactive_power"@),
        definition("reac_p2"@, "Reactive Power Phase 2"@, "var"@, "reactive_power"@),
        definition("reac_p3"@, "Reactive Power Phase 3"@, "var"@, "reactive_power"@),
        definition("reac_sum"@, "Total Reactive Power"@, "var"@, "reactive_power"@),
        definition("energy_total"@, "Total Consumed Energy"@, "kWh"@, "energy"@),
        definition("energy_day"@, "Daily Consumed Energy"@, "kWh"@, "energy"@),
        definition("energy_night"@, "Nightly Consumed Energy"@, "kWh"@, "energy"@),
        definition("energy_yesterday"@, "Yesterday Consumed Energy"@, "kWh"@, "energy"@),
        definition("energy_today"@, "Today Consumed Energy"@, "kWh"@, "energy"@),
    ]
}

/// Looks a sensor's reading up in a snapshot, by its place in the table.
pub open spec fn reading_of(s: FullMeterSnapshot, i: int) -> Option<Reading> {
    seq![
        s.voltage.p1,
        s.voltage.p2,
        s.voltage.p3,
        s.current.p1,
        s.current.p2,
        s.current.p3,
        s.active_power.p1,
        s.active_power.p2,
        s.active_power.p3,
        s.active_power.sum,
        s.frequency,
        s.cos_f.sum,
        s.cos_f.p1,
        s.cos_f.p2,
        s.cos_f.p3,
        s.reactive_power.p1,
        s.reactive_power.p2,
        s.reactive_power.p3,
        s.reactive_power.sum,
        s.total_consumed_kw,
        s.tariff_day_kw,
        s.tariff_night_kw,
        s.yesterday_kw,
        s.today_kw,
    ][i]
}

/// The table of sensors.
pub fn sensor_definitions() -> (table: Vec<SensorDefinition>)
    ensures
        table@.len() == SENSOR_COUNT,
        forall|i: int| 0 <= i < SENSOR_COUNT ==> (#[trigger] table@[i])@ == definitions()[i],
        table@.len() == 24,
        forall|i: int|
            0 <= i < 3 ==> (#[trigger] table@[i]).unit@ == "V"@ && table@[i].dev_class@
                == "voltage"@,
        forall|i: int|
            3 <= i < 6 ==> (#[trigger] table@[i]).unit@ == "A"@ && table@[i].dev_class@
                == "current"@,
        forall|i: int|
            6 <= i < 10 ==> (#[trigger] table@[i]).unit@ == "W"@ && table@[i].dev_class@
                == "power"@,
        forall|i: int|
            10 <= i < 11 ==> (#[trigger] table@[i]).unit@ == "Hz"@ && table@[i].dev_class@
                == "frequency"@,
        forall|i: int|
            11 <= i < 15 ==> (#[trigger] table@[i]).unit@ == ""@ && table@[i].dev_class@
                == "power_factor"@,
        forall|i: int|
            15 <= i < 19 ==> (#[trigger] table@[i]).unit@ == "var"@ && table@[i].dev_class@
                == "reactive_power"@,
        forall|i: int|
            19 <= i < 24 ==> (#[trigger] table@[i]).unit@ == "kWh"@ && table@[i].dev_class@
                == "energy"@,
        table@[0].suffix@ == "volt_p1"@ && table@[0].name@ == "Voltage Phase 1"@,
        table@[1].suffix@ == "volt_p2"@ && table@[1].name@ == "Voltage Phase 2"@,
        table@[2].suffix@ == "volt_p3"@ && table@[2].name@ == "Voltage Phase 3"@,
        table@[3].suffix@ == "amp_p1"@ && table@[3].name@ == "Current Phase 1"@,
        table@[4].suffix@ == "amp_p2"@ && table@[4].name@ == "Current Phase 2"@,
        table@[5].suffix@ == "amp_p3"@ && table@[5].name@ == "Current Phase 3"@,
        table@[6].suffix@ == "pow_p1"@ && table@[6].name@ == "Active Power Phase 1"@,
        table@[7].suffix@ == "pow_p2"@ && table@[7].name@ == "Active Power Phase 2"@,
        table@[8].suffix@ == "pow_p3"@ && table@[8].name@ == "Active Power Phase 3"@,
        table@[9].suffix@ == "pow_sum"@ && table@[9].name@ == "Total Active Power"@,
        table@[10].suffix@ == "freq"@ && table@[10].name@ == "Frequency"@,
        table@[11].suffix@ == "cos_f_sum"@ && table@[11].name@ == "Total Power Factor"@,
        table@[12].suffix@ == "cos_f_p1"@ && table@[12].name@ == "Power Factor Phase 1"@,
        table@[13].suffix@ == "cos_f_p2"@ && table@[13].name@ == "Power Factor Phase 2"@,
        table@[14].suffix@ == "cos_f_p3"@ && table@[14].name@ == "Power Factor Phase 3"@,
        table@[15].suffix@ == "reac_p1"@ && table@[15].name@ == "Reactive Power Phase 1"@,
        table@[16].suffix@ == "reac_p2"@ && table@[16].name@ == "Reactive Power Phase 2"@,
        table@[17].suffix@ == "reac_p3"@ && table@[17].name@ == "Reactive Power Phase 3"@,
        table@[18].suffix@ == "reac_sum"@ && table@[18].name@ == "Total Reactive Power"@,
        table@[19].suffix@ == "energy_total"@ && table@[19].name@ == "Total Consumed Energy"@,
        table@[20].suffix@ == "energy_day"@ && table@[20].name@ == "Daily Consumed Energy"@,
        table@[21].suffix@ == "energy_night"@ && table@[21].name@ == "Nightly Consumed Energy"@,
        table@[22].suffix@ == "energy_yesterday"@ && table@[22].name@ == "Yesterday Consumed Energy"@,
        table@[23].suffix@ == "energy_today"@ && table@[23].name@ == "Today Consumed Energy"@,
{
    vec![
        SensorDefinition {
            suffix: "volt_p1",
            name: "Voltage Phase 1",
            unit: "V",
            dev_class: "voltage",
        },
        SensorDefinition {
            suffix: "volt_p2",
            name: "Voltage Phase 2",
            unit: "V",
            dev_class: "voltage",
        },
        SensorDefinition {
            suffix: "volt_p3",
            name: "Voltage Phase 3",
            unit: "V",
            dev_class: "voltage",
        },
        SensorDefinition {
            suffix: "amp_p1",
            name: "Current Phase 1",
            unit: "A",
            dev_class: "current",
        },
        SensorDefinition {
            suffix: "amp_p2",
            name: "Current Phase 2",
            unit: "A",
            dev_class: "current",
        },
        SensorDefinition {
            suffix: "amp_p3",
            name: "Current Phase 3",
            unit: "A",
            dev_class: "current",
        },
        SensorDefinition {
            suffix: "pow_p1",
            name: "Active Power Phase 1",
            unit: "W",
            dev_class: "power",
        },
        SensorDefinition {
            suffix: "pow_p2",
            name: "Active Power Phase 2",
            unit: "W",
            dev_class: "power",
        },
        SensorDefinition {
            suffix: "pow_p3",
            name: "Active Power Phase 3",
            unit: "W",
            dev_class: "power",
        },
        SensorDefinition {
            suffix: "pow_sum",
            name: "Total Active Power",
            unit: "W",
            dev_class: "power",
        },
        SensorDefinition {
            suffix: "freq",
            name: "Frequency",
            unit: "Hz",
            dev_class: "frequency",
        },
        SensorDefinition {
            suffix: "cos_f_sum",
            name: "Total Power Factor",
            unit: "",
            dev_class: "power_factor",
        },
        SensorDefinition {
            suffix: "cos_f_p1",
            name: "Power Factor Phase 1",
            unit: "",
            dev_class: "power_factor",
        },
        SensorDefinition {
            suffix: "cos_f_p2",
            name: "Power Factor Phase 2",
            unit: "",
            dev_class: "power_factor",
        },
        SensorDefinition {
            suffix: "cos_f_p3",
            name: "Power Factor Phase 3",
            unit: "",
            dev_class: "power_factor",
        },
        SensorDefinition {
            suffix: "reac_p1",
            name: "Reactive Power Phase 1",
            unit: "var",
            dev_class: "reactive_power",
        },
        SensorDefinition {
            suffix: "reac_p2",
            name: "Reactive Power Phase 2",
            unit: "var",
            dev_class: "reactive_power",
        },
        SensorDefinition {
            suffix: "reac_p3",
            name: "Reactive Power Phase 3",
            unit: "var",
            dev_class: "reactive_power",
        },
        SensorDefinition {
            suffix: "reac_sum",
            name: "Total Reactive Power",
            unit: "var",
            dev_class: "reactive_power",
        },
        SensorDefinition {
            suffix: "energy_total",
            name: "Total Consumed Energy",
            unit: "kWh",
            dev_class: "energy",
        },
        SensorDefinition {
            suffix: "energy_day",
            name: "Daily Consumed Energy",
            unit: "kWh",
            dev_class: "energy",
        },
        SensorDefinition {
            suffix: "energy_night",
            name: "Nightly Consumed Energy",
            unit: "kWh",
            dev_class: "energy",
        },
        SensorDefinition {
            suffix: "energy_yesterday",
            name: "Yesterday Consumed Energy",
            unit: "kWh",
            dev_class: "energy",
        },
        SensorDefinition {
            suffix: "energy_today",
            name: "Today Consumed Energy",
            unit: "kWh",
            dev_class: "energy",
        },
    ]
}

/// The readings of a snapshot, sensor by sensor in the order of the table.
pub fn sensor_readings(s: &FullMeterSnapshot) -> (readings: Vec<SensorReading>)
    ensures
        readings@.len() == SENSOR_COUNT,
        forall|i: int|
            0 <= i < SENSOR_COUNT ==> (#[trigger] readings@[i]).suffix@ == definitions()[i].suffix
                && readings@[i].value == reading_of(*s, i),
        readings@.len() == 24,
        readings@[0].suffix@ == "volt_p1"@ && readings@[0].value == s.voltage.p1,
        readings@[1].suffix@ == "volt_p2"@ && readings@[1].value == s.voltage.p2,
        readings@[2].suffix@ == "volt_p3"@ && readings@[2].value == s.voltage.p3,
        readings@[3].suffix@ == "amp_p1"@ && readings@[3].value == s.current.p1,
        readings@[4].suffix@ == "amp_p2"@ && readings@[4].value == s.current.p2,
        readings@[5].suffix@ == "amp_p3"@ && readings@[5].value == s.current.p3,
        readings@[6].suffix@ == "pow_p1"@ && readings@[6].value == s.active_power.p1,
        readings@[7].suffix@ == "pow_p2"@ && readings@[7].value == s.active_power.p2,
        readings@[8].suffix@ == "pow_p3"@ && readings@[8].value == s.active_power.p3,
        readings@[9].suffix@ == "pow_sum"@ && readings@[9].value == s.active_power.sum,
        readings@[10].suffix@ == "freq"@ && readings@[10].value == s.frequency,
        readings@[11].suffix@ == "cos_f_sum"@ && readings@[11].value == s.cos_f.sum,
        readings@[12].suffix@ == "cos_f_p1"@ && readings@[12].value == s.cos_f.p1,
        readings@[13].suffix@ == "cos_f_p2"@ && readings@[13].value == s.cos_f.p2,
        readings@[14].suffix@ == "cos_f_p3"@ && readings@[14].value == s.cos_f.p3,
        readings@[15].suffix@ == "reac_p1"@ && readings@[15].value == s.reactive_power.p1,
        readings@[16].suffix@ == "reac_p2"@ && readings@[16].value == s.reactive_power.p2,
        readings@[17].suffix@ == "reac_p3"@ && readings@[17].value == s.reactive_power.p3,
        readings@[18].suffix@ == "reac_sum"@ && readings@[18].value == s.reactive_power.sum,
        readings@[19].suffix@ == "energy_total"@ && readings@[19].value == s.total_consumed_kw,
        readings@[20].suffix@ == "energy_day"@ && readings@[20].value == s.tariff_day_kw,
        readings@[21].suffix@ == "energy_night"@ && readings@[21].value == s.tariff_night_kw,
        readings@[22].suffix@ == "energy_yesterday"@ && readings@[22].value == s.yesterday_kw,
        readings@[23].suffix@ == "energy_today"@ && readings@[23].value == s.today_kw,
{
    vec![
        SensorReading { suffix: "volt_p1", value: s.voltage.p1 },
        SensorReading { suffix: "volt_p2", value: s.voltage.p2 },
        SensorReading { suffix: "volt_p3", value: s.voltage.p3 },
        SensorReading { suffix: "amp_p1", value: s.current.p1 },
        SensorReading { suffix: "amp_p2", value: s.current.p2 },
        SensorReading { suffix: "amp_p3", value: s.current.p3 },
        SensorReading { suffix: "pow_p1", value: s.active_power.p1 },
        SensorReading { suffix: "pow_p2", value: s.active_power.p2 },
        SensorReading { suffix: "pow_p3", value: s.active_power.p3 },
        SensorReading { suffix: "pow_sum", value: s.active_power.sum },
        SensorReading { suffix: "freq", value: s.frequency },
        SensorReading { suffix: "cos_f_sum", value: s.cos_f.sum },
        SensorReading { suffix: "cos_f_p1", value: s.cos_f.p1 },
        SensorReading { suffix: "cos_f_p2", value: s.cos_f.p2 },
        SensorReading { suffix: "cos_f_p3", value: s.cos_f.p3 },
        SensorReading { suffix: "reac_p1", value: s.reactive_power.p1 },
        SensorReading { suffix: "reac_p2", value: s.reactive_power.p2 },
        SensorReading { suffix: "reac_p3", value: s.reactive_power.p3 },
        SensorReading { suffix: "reac_sum", value: s.reactive_power.sum },
        SensorReading { suffix: "energy_total", value: s.total_consumed_kw },
        SensorReading { suffix: "energy_day", value: s.tariff_day_kw },
        SensorReading { suffix: "energy_night", value: s.tariff_night_kw },
        SensorReading { suffix: "energy_yesterday", value: s.yesterday_kw },
        SensorReading { suffix: "energy_today", value: s.today_kw },
    ]
}

/// What the sensors measure: voltages in volts, currents in amperes, active powers in
/// watts, the frequency in hertz, power factors without a unit, reactive powers in vars
/// and energies in kilowatt-hours.
pub proof fn law_units_by_group(i: int)
    ensures
        definitions().len() == 24,
        0 <= i < 3 ==> definitions()[i].unit == "V"@ && definitions()[i].dev_class
            == "voltage"@,
        3 <= i < 6 ==> definitions()[i].unit == "A"@ && definitions()[i].dev_class
            == "current"@,
        6 <= i < 10 ==> definitions()[i].unit == "W"@ && definitions()[i].dev_class
            == "power"@,
        10 <= i < 11 ==> definitions()[i].unit == "Hz"@ && definitions()[i].dev_class
            == "frequency"@,
        11 <= i < 15 ==> definitions()[i].unit == ""@ && definitions()[i].dev_class
            == "power_factor"@,
        15 <= i < 19 ==> definitions()[i].unit == "var"@ && definitions()[i].dev_class
            == "reactive_power"@,
        19 <= i < 24 ==> definitions()[i].unit == "kWh"@ && definitions()[i].dev_class
            == "energy"@,
{
}

/// The sensors of a quantity by phase differ in the digit of the phase, at the end of
/// their suffixes and of their names.
pub proof fn law_phases_are_numbered(k: int)
    requires
        1 <= k <= 3,
    ensures
        definitions()[k - 1].suffix == "volt_p"@.push((48 + k) as char),
        definitions()[k - 1].name == "Voltage Phase "@.push((48 + k) as char),
        definitions()[2 + k].suffix == "amp_p"@.push((48 + k) as char),
        definitions()[2 + k].name == "Current Phase "@.push((48 + k) as char),
        definitions()[5 + k].suffix == "pow_p"@.push((48 + k) as char),
        definitions()[5 + k].name == "Active Power Phase "@.push((48 + k) as char),
        definitions()[11 + k].suffix == "cos_f_p"@.push((48 + k) as char),
        definitions()[11 + k].name == "Power Factor Phase "@.push((48 + k) as char),
        definitions()[14 + k].suffix == "reac_p"@.push((48 + k) as char),
        definitions()[14 + k].name == "Reactive Power Phase "@.push((48 + k) as char),
{
    reveal_strlit("volt_p");
    reveal_strlit("Voltage Phase ");
    reveal_strlit("volt_p1");
    reveal_strlit("Voltage Phase 1");
    reveal_strlit("volt_p2");
    reveal_strlit("Voltage Phase 2");
    reveal_strlit("volt_p3");
    reveal_strlit("Voltage Phase 3");
    reveal_strlit("amp_p");
    reveal_strlit("Current Phase ");
    reveal_strlit("amp_p1");
    reveal_strlit("Current Phase 1");
    reveal_strlit("amp_p2");
    reveal_strlit("Current Phase 2");
    reveal_strlit("amp_p3");
    reveal_strlit("Current Phase 3");
    reveal_strlit("pow_p");
    reveal_strlit("Active Power Phase ");
    reveal_strlit("pow_p1");
    reveal_strlit("Active Power Phase 1");
    reveal_strlit("pow_p2");
    reveal_strlit("Active Power Phase 2");
    reveal_strlit("pow_p3");
    reveal_strlit("Active Power Phase 3");
    reveal_strlit("cos_f_p");
    reveal_strlit("Power Factor Phase ");
    reveal_strlit("cos_f_p1");
    reveal_strlit("Power Factor Phase 1");
    reveal_strlit("cos_f_p2");
    reveal_strlit("Power Factor Phase 2");
    reveal_strlit("cos_f_p3");
    reveal_strlit("Power Factor Phase 3");
    reveal_strlit("reac_p");
    reveal_strlit("Reactive Power Phase ");
    reveal_strlit("reac_p1");
    reveal_strlit("Reactive Power Phase 1");
    reveal_strlit("reac_p2");
    reveal_strlit("Reactive Power Phase 2");
    reveal_strlit("reac_p3");
    reveal_strlit("Reactive Power Phase 3");
    assert("volt_p1"@ =~= "volt_p"@.push('1'));
    assert("Voltage Phase 1"@ =~= "Voltage Phase "@.push('1'));
    assert("volt_p2"@ =~= "volt_p"@.push('2'));
    assert("Voltage Phase 2"@ =~= "Voltage Phase "@.push('2'));
    assert("volt_p3"@ =~= "volt_p"@.push('3'));
    assert("Voltage Phase 3"@ =~= "Voltage Phase "@.push('3'));
    assert("amp_p1"@ =~= "amp_p"@.push('1'));
    assert("Current Phase 1"@ =~= "Current Phase "@.push('1'));
    assert("amp_p2"@ =~= "amp_p"@.push('2'));
    assert("Current Phase 2"@ =~= "Current Phase "@.push('2'));
    assert("amp_p3"@ =~= "amp_p"@.push('3'));
    assert("Current Phase 3"@ =~= "Current Phase "@.push('3'));
    assert("pow_p1"@ =~= "pow_p"@.push('1'));
    assert("Active Power Phase 1"@ =~= "Active Power Phase "@.push('1'));
    assert("pow_p2"@ =~= "pow_p"@.push('2'));
    assert("Active Power Phase 2"@ =~= "Active Power Phase "@.push('2'));
    assert("pow_p3"@ =~= "pow_p"@.push('3'));
    assert("Active Power Phase 3"@ =~= "Active Power Phase "@.push('3'));
    assert("cos_f_p1"@ =~= "cos_f_p"@.push('1'));
    assert("Power Factor Phase 1"@ =~= "Power Factor Phase "@.push('1'));
    assert("cos_f_p2"@ =~= "cos_f_p"@.push('2'));
    assert("Power Factor Phase 2"@ =~= "Power Factor Phase "@.push('2'));
    assert("cos_f_p3"@ =~= "cos_f_p"@.push('3'));
    assert("Power Factor Phase 3"@ =~= "Power Factor Phase "@.push('3'));
    assert("reac_p1"@ =~= "reac_p"@.push('1'));
    assert("Reactive Power Phase 1"@ =~= "Reactive Power Phase "@.push('1'));
    assert("reac_p2"@ =~= "reac_p"@.push('2'));
    assert("Reactive Power Phase 2"@ =~= "Reactive Power Phase "@.push('2'));
    assert("reac_p3"@ =~= "reac_p"@.push('3'));
    assert("Reactive Power Phase 3"@ =~= "Reactive Power Phase "@.push('3'));
}

/// The totals, the frequency and the energies have suffixes and names of their own.
pub proof fn law_totals_are_named()
    ensures
        definitions()[9].suffix == "pow_sum"@,
        definitions()[9].name == "Total Active Power"@,
        definitions()[10].suffix == "freq"@,
        definitions()[10].name == "Frequency"@,
        definitions()[11].suffix == "cos_f_sum"@,
        definitions()[11].name == "Total Power Factor"@,
        definitions()[18].suffix == "reac_sum"@,
        definitions()[18].name == "Total Reactive Power"@,
        definitions()[19].suffix == "energy_total"@,
        definitions()[19].name == "Total Consumed Energy"@,
        definitions()[20].suffix == "energy_day"@,
        definitions()[20].name == "Daily Consumed Energy"@,
        definitions()[21].suffix == "energy_night"@,
        definitions()[21].name == "Nightly Consumed Energy"@,
        definitions()[22].suffix == "energy_yesterday"@,
        definitions()[22].name == "Yesterday Consumed Energy"@,
        definitions()[23].suffix == "energy_today"@,
        definitions()[23].name == "Today Consumed Energy"@,
{
}

/// The sensors by phase show the phases of their quantity in order, and the totals the
/// sums.
pub proof fn law_reading_by_place(s: FullMeterSnapshot)
    ensures
        reading_of(s, 0) == s.voltage.p1,
        reading_of(s, 1) == s.voltage.p2,
        reading_of(s, 2) == s.voltage.p3,
        reading_of(s, 3) == s.current.p1,
        reading_of(s, 4) == s.current.p2,
        reading_of(s, 5) == s.current.p3,
        reading_of(s, 6) == s.active_power.p1,
        reading_of(s, 7) == s.active_power.p2,
        reading_of(s, 8) == s.active_power.p3,
        reading_of(s, 9) == s.active_power.sum,
        reading_of(s, 10) == s.frequency,
        reading_of(s, 11) == s.cos_f.sum,
        reading_of(s, 12) == s.cos_f.p1,
        reading_of(s, 13) == s.cos_f.p2,
        reading_of(s, 14) == s.cos_f.p3,
        reading_of(s, 15) == s.reactive_power.p1,
        reading_of(s, 16) == s.reactive_power.p2,
        reading_of(s, 17) == s.reactive_power.p3,
        reading_of(s, 18) == s.reactive_power.sum,
        reading_of(s, 19) == s.total_consumed_kw,
        reading_of(s, 20) == s.tariff_day_kw,
        reading_of(s, 21) == s.tariff_night_kw,
        reading_of(s, 22) == s.yesterday_kw,
        reading_of(s, 23) == s.today_kw,
{
}

/// The place of a suffix in the table, told by a few of its letters.
spec fn place(s: Seq<char>) -> int {
    if s[0] == 'v' {
        s[6] as int - '1' as int
    } else if s[0] == 'a' {
        3 + s[5] as int - '1' as int
    } else if s[0] == 'p' {
        if s[4] == 's' {
            9
        } else {
            6 + s[5] as int - '1' as int
        }
    } else if s[0] == 'f' {
        10
    } else if s[0] == 'c' {
        if s[6] == 's' {
            11
        } else {
            12 + s[7] as int - '1' as int
        }
    } else if s[0] == 'r' {
        if s[5] == 's' {
            18
        } else {
            15 + s[6] as int - '1' as int
        }
    } else if s[7] == 'd' {
        20
    } else if s[7] == 'n' {
        21
    } else if s[7] == 'y' {
        22
    } else if s[9] == 'd' {
        23
    } else {
        19
    }
}

proof fn lemma_place(i: int)
    requires
        0 <= i < SENSOR_COUNT,
    ensures
        place(definitions()[i].suffix) == i,
{
    reveal_strlit("volt_p1");
    reveal_strlit("volt_p2");
    reveal_strlit("volt_p3");
    reveal_strlit("amp_p1");
    reveal_strlit("amp_p2");
    reveal_strlit("amp_p3");
    reveal_strlit("pow_p1");
    reveal_strlit("pow_p2");
    reveal_strlit("pow_p3");
    reveal_strlit("pow_sum");
    reveal_strlit("freq");
    reveal_strlit("cos_f_sum");
    reveal_strlit("cos_f_p1");
    reveal_strlit("cos_f_p2");
    reveal_strlit("cos_f_p3");
    reveal_strlit("reac_p1");
    reveal_strlit("reac_p2");
    reveal_strlit("reac_p3");
    reveal_strlit("reac_sum");
    reveal_strlit("energy_total");
    reveal_strlit("energy_day");
    reveal_strlit("energy_night");
    reveal_strlit("energy_yesterday");
    reveal_strlit("energy_today");
    assert(place("volt_p1"@) == 0);
    assert(place("volt_p2"@) == 1);
    assert(place("volt_p3"@) == 2);
    assert(place("amp_p1"@) == 3);
    assert(place("amp_p2"@) == 4);
    assert(place("amp_p3"@) == 5);
    assert(place("pow_p1"@) == 6);
    assert(place("pow_p2"@) == 7);
    assert(place("pow_p3"@) == 8);
    assert(place("pow_sum"@) == 9);
    assert(place("freq"@) == 10);
    assert(place("cos_f_sum"@) == 11);
    assert(place("cos_f_p1"@) == 12);
    assert(place("cos_f_p2"@) == 13);
    assert(place("cos_f_p3"@) == 14);
    assert(place("reac_p1"@) == 15);
    assert(place("reac_p2"@) == 16);
    assert(place("reac_p3"@) == 17);
    assert(place("reac_sum"@) == 18);
    assert(place("energy_total"@) == 19);
    assert(place("energy_day"@) == 20);
    assert(place("energy_night"@) == 21);
    assert(place("energy_yesterday"@) == 22);
    assert(place("energy_today"@) == 23);
}

/// No two sensors have the same suffix.
pub proof fn law_suffixes_differ(i: int, j: int)
    requires
        0 <= i < SENSOR_COUNT,
        0 <= j < SENSOR_COUNT,
        definitions()[i].suffix == definitions()[j].suffix,
    ensures
        i == j,
{
    lemma_place(i);
    lemma_place(j);
}

} // verus!
