//! Announcing the sensors, so that they show up in the home without further setup.

use vstd::prelude::*;

use crate::json::{
    array_json, new_object, no_members, object_json, put_array, put_object, put_string,
    string_json, write_object,
};
use crate::mqtt::{
    config_topic, law_topics_spelled_out, make_config_topic, make_state_topic, make_unique_id,
    state_topic, unique_id, Message, Publish, Qos,
};
use crate::sensor::{
    definitions, law_units_by_group, sensor_definitions, Definition, SensorDefinition,
    SENSOR_COUNT,
};

verus! {

/// What is said of one sensor when it is announced.
#[derive(Debug)]
pub struct ConfigFields {
    pub name: String,
    pub unique_id: String,
    pub stat_t: String,
    pub unit_of_measurement: String,
    pub dev_cla: String,
}

/// [`ConfigFields`] with its texts as sequences.
pub struct Fields {
    pub name: Seq<char>,
    pub unique_id: Seq<char>,
    pub stat_t: Seq<char>,
    pub unit_of_measurement: Seq<char>,
    pub dev_cla: Seq<char>,
}

impl View for ConfigFields {
    type V = Fields;

    open spec fn view(&self) -> Fields {
        Fields {
            name: self.name@,
            unique_id: self.unique_id@,
            stat_t: self.stat_t@,
            unit_of_measurement: self.unit_of_measurement@,
            dev_cla: self.dev_cla@,
        }
    }
}

/// What is said of a sensor of the meter `device_id` that reports under `mqtt_acc`.
pub open spec fn fields_of(
    device_id: Seq<char>,
    mqtt_acc: Seq<char>,
    definition: Definition,
) -> Fields {
    Fields {
        name: definition.name + " "@ + device_id,
        unique_id: unique_id(device_id, definition.suffix),
        stat_t: state_topic(mqtt_acc, device_id, definition.suffix),
        unit_of_measurement: definition.unit,
        dev_cla: definition.dev_class,
    }
}

/// The members of the object that describes the meter.
pub open spec fn device_members(device_id: Seq<char>) -> Map<Seq<char>, Seq<char>> {
    no_members().insert("identifiers"@, array_json(seq![device_id])).insert(
        "name"@,
        string_json("Mercury Meter "@ + device_id),
    ).insert("model"@, string_json("Mercury 236"@)).insert("manufacturer"@, string_json("Elster"@))
}

/// The members of the object that announces a sensor.
pub open spec fn config_members(device_id: Seq<char>, fields: Fields) -> Map<
    Seq<char>,
    Seq<char>,
> {
    no_members().insert("name"@, string_json(fields.name)).insert(
        "unique_id"@,
        string_json(fields.unique_id),
    ).insert("stat_t"@, string_json(fields.stat_t)).insert(
        "unit_of_measurement"@,
        string_json(fields.unit_of_measurement),
    ).insert("dev_cla"@, string_json(fields.dev_cla)).insert(
        "device"@,
        object_json(device_members(device_id)),
    )
}

/// Whether a payload is a JSON object that binds `key` to a value with this JSON text.
pub open spec fn tells(payload: Seq<char>, key: Seq<char>, json: Seq<char>) -> bool {
    exists|members: Map<Seq<char>, Seq<char>>|
        payload == #[trigger] object_json(members) && members.dom().contains(key) && members[key]
            == json
}

/// The announcement of a sensor: kept by the broker, and delivered for certain.
pub open spec fn announcement(
    device_id: Seq<char>,
    suffix: Seq<char>,
    payload: Seq<char>,
) -> Message {
    Message {
        topic: config_topic(device_id, suffix),
        qos: Qos::AtLeastOnce,
        retain: true,
        payload,
    }
}

/// Collects what is said of a sensor.
pub fn config_fields(device_id: &str, mqtt_acc: &str, definition: &SensorDefinition) -> (fields:
    ConfigFields)
    ensures
        fields@ == fields_of(device_id@, mqtt_acc@, definition@),
        fields.name@ == definition.name@ + " "@ + device_id@,
        fields.unique_id@ == device_id@ + "_"@ + definition.suffix@,
        fields.stat_t@ == "/ssn/acc/"@ + mqtt_acc@ + "/obj/power/device/"@ + device_id@ + "/"@
            + definition.suffix@,
        fields.unit_of_measurement@ == definition.unit@,
        fields.dev_cla@ == definition.dev_class@,
{
    let mut name: String = definition.name.to_owned();
    name.append(" ");
    name.append(device_id);
    ConfigFields {
        name,
        unique_id: make_unique_id(device_id, definition.suffix),
        stat_t: make_state_topic(mqtt_acc, device_id, definition.suffix),
        unit_of_measurement: definition.unit.to_owned(),
        dev_cla: definition.dev_class.to_owned(),
    }
}

/// Writes the object that announces a sensor.
pub fn config_payload(device_id: &str, fields: &ConfigFields) -> (payload: String)
    ensures
        payload@ == object_json(config_members(device_id@, fields@)),
        tells(payload@, "name"@, string_json(fields.name@)),
        tells(payload@, "unique_id"@, string_json(fields.unique_id@)),
        tells(payload@, "stat_t"@, string_json(fields.stat_t@)),
        tells(payload@, "unit_of_measurement"@, string_json(fields.unit_of_measurement@)),
        tells(payload@, "dev_cla"@, string_json(fields.dev_cla@)),
        exists|device: Map<Seq<char>, Seq<char>>|
            tells(payload@, "device"@, #[trigger] object_json(device)) && device["identifiers"@]
                == "["@ + string_json(device_id@) + "]"@ && device["name"@] == string_json(
                "Mercury Meter "@ + device_id@,
            ) && device["model"@] == string_json("Mercury 236"@) && device["manufacturer"@]
                == string_json("Elster"@),
{
    proof {
        law_announcement_members(device_id@, fields@);
        law_device_members(device_id@);
        lemma_tells(device_id@, fields@);
    }
    let mut identifiers: Vec<String> = Vec::new();
    identifiers.push(device_id.to_owned());
    proof {
        assert(identifiers.deep_view() =~= seq![device_id@]);
    }
    let mut device_name: String = "Mercury Meter ".to_owned();
    device_name.append(device_id);
    let mut device = new_object();
    put_array(&mut device, "identifiers", identifiers);
    put_string(&mut device, "name", device_name.as_str());
    put_string(&mut device, "model", "Mercury 236");
    put_string(&mut device, "manufacturer", "Elster");
    let mut config = new_object();
    put_string(&mut config, "name", fields.name.as_str());
    put_string(&mut config, "unique_id", fields.unique_id.as_str());
    put_string(&mut config, "stat_t", fields.stat_t.as_str());
    put_string(&mut config, "unit_of_measurement", fields.unit_of_measurement.as_str());
    put_string(&mut config, "dev_cla", fields.dev_cla.as_str());
    put_object(&mut config, "device", device);
    write_object(config)
}

/// Addresses the announcement of a sensor.
pub fn config_message(device_id: &str, suffix: &str, payload: String) -> (message: Publish)
    ensures
        message@ == announcement(device_id@, suffix@, payload@),
        message.topic@ == "homeassistant/sensor/"@ + device_id@ + "_"@ + suffix@ + "/config"@,
        message.qos is AtLeastOnce,
        message.retain,
        message.payload@ == payload@,
{
    Publish {
        topic: make_config_topic(device_id, suffix),
        qos: Qos::AtLeastOnce,
        retain: true,
        payload,
    }
}

/// The announcements of all sensors of a meter, in the order of the table.
pub fn discovery_configs(device_id: &str, mqtt_acc: &str) -> (messages: Vec<Publish>)
    ensures
        messages@.len() == SENSOR_COUNT,
        forall|i: int|
            0 <= i < SENSOR_COUNT ==> (#[trigger] messages@[i])@ == announcement(
                device_id@,
                definitions()[i].suffix,
                object_json(
                    config_members(
                        device_id@,
                        fields_of(device_id@, mqtt_acc@, definitions()[i]),
                    ),
                ),
            ),
        messages@.len() == 24,
        forall|i: int|
            0 <= i < 24 ==> {
                &&& (#[trigger] messages@[i]).topic@ == "homeassistant/sensor/"@ + device_id@ + "_"@
                    + definitions()[i].suffix + "/config"@
                &&& messages@[i].qos is AtLeastOnce
                &&& messages@[i].retain
                &&& tells(
                    messages@[i].payload@,
                    "name"@,
                    string_json(definitions()[i].name + " "@ + device_id@),
                )
                &&& tells(
                    messages@[i].payload@,
                    "unique_id"@,
                    string_json(device_id@ + "_"@ + definitions()[i].suffix),
                )
                &&& tells(
                    messages@[i].payload@,
                    "stat_t"@,
                    string_json(
                        "/ssn/acc/"@ + mqtt_acc@ + "/obj/power/device/"@ + device_id@ + "/"@
                            + definitions()[i].suffix,
                    ),
                )
            },
        forall|i: int|
            0 <= i < 3 ==> tells(
                (#[trigger] messages@[i]).payload@,
                "unit_of_measurement"@,
                string_json("V"@),
            ) && tells(messages@[i].payload@, "dev_cla"@, string_json("voltage"@)),
        forall|i: int|
            3 <= i < 6 ==> tells(
                (#[trigger] messages@[i]).payload@,
                "unit_of_measurement"@,
                string_json("A"@),
            ) && tells(messages@[i].payload@, "dev_cla"@, string_json("current"@)),
        forall|i: int|
            6 <= i < 10 ==> tells(
                (#[trigger] messages@[i]).payload@,
                "unit_of_measurement"@,
                string_json("W"@),
            ) && tells(messages@[i].payload@, "dev_cla"@, string_json("power"@)),
        forall|i: int|
            10 <= i < 11 ==> tells(
                (#[trigger] messages@[i]).payload@,
                "unit_of_measurement"@,
                string_json("Hz"@),
            ) && tells(messages@[i].payload@, "dev_cla"@, string_json("frequency"@)),
        forall|i: int|
            11 <= i < 15 ==> tells(
                (#[trigger] messages@[i]).payload@,
                "unit_of_measurement"@,
                string_json(""@),
            ) && tells(messages@[i].payload@, "dev_cla"@, string_json("power_factor"@)),
        forall|i: int|
            15 <= i < 19 ==> tells(
                (#[trigger] messages@[i]).payload@,
                "unit_of_measurement"@,
                string_json("var"@),
            ) && tells(messages@[i].payload@, "dev_cla"@, string_json("reactive_power"@)),
        forall|i: int|
            19 <= i < 24 ==> tells(
                (#[trigger] messages@[i]).payload@,
                "unit_of_measurement"@,
                string_json("kWh"@),
            ) && tells(messages@[i].payload@, "dev_cla"@, string_json("energy"@)),
{
    let table: Vec<SensorDefinition> = sensor_definitions();
    let mut messages: Vec<Publish> = Vec::new();
    for i in 0..table.len()
        invariant
            table@.len() == SENSOR_COUNT,
            forall|k: int| 0 <= k < SENSOR_COUNT ==> (#[trigger] table@[k])@ == definitions()[k],
            messages@.len() == i,
            forall|k: int|
                0 <= k < i ==> (#[trigger] messages@[k])@ == announcement(
                    device_id@,
                    definitions()[k].suffix,
                    object_json(
                        config_members(
                            device_id@,
                            fields_of(device_id@, mqtt_acc@, definitions()[k]),
                        ),
                    ),
                ),
    {
        let definition: SensorDefinition = table[i];
        proof {
            assert(table@[i as int]@ == definitions()[i as int]);
        }
        let fields: ConfigFields = config_fields(device_id, mqtt_acc, &definition);
        let payload: String = config_payload(device_id, &fields);
        messages.push(config_message(device_id, definition.suffix, payload));
    }
    proof {
        assert forall|i: int| 0 <= i < 24 implies (#[trigger] messages@[i]).topic@
            == "homeassistant/sensor/"@ + device_id@ + "_"@ + definitions()[i].suffix + "/config"@
            && messages@[i].qos is AtLeastOnce && messages@[i].retain && messages@[i].payload@
            == object_json(
            config_members(device_id@, fields_of(device_id@, mqtt_acc@, definitions()[i])),
        ) by {
            assert(messages@[i]@.topic == messages@[i].topic@);
            law_topics_spelled_out(mqtt_acc@, device_id@, definitions()[i].suffix);
        }
        assert forall|i: int| 0 <= i < 24 implies tells(
            (#[trigger] messages@[i]).payload@,
            "name"@,
            string_json(definitions()[i].name + " "@ + device_id@),
        ) && tells(
            messages@[i].payload@,
            "unique_id"@,
            string_json(device_id@ + "_"@ + definitions()[i].suffix),
        ) && tells(
            messages@[i].payload@,
            "stat_t"@,
            string_json(
                "/ssn/acc/"@ + mqtt_acc@ + "/obj/power/device/"@ + device_id@ + "/"@
                    + definitions()[i].suffix,
            ),
        ) && tells(
            messages@[i].payload@,
            "unit_of_measurement"@,
            string_json(definitions()[i].unit),
        ) && tells(messages@[i].payload@, "dev_cla"@, string_json(definitions()[i].dev_class)) by {
            law_topics_spelled_out(mqtt_acc@, device_id@, definitions()[i].suffix);
            lemma_tells(device_id@, fields_of(device_id@, mqtt_acc@, definitions()[i]));
        }
    }
    messages
}

/// A sensor's announcement tells six things, each under its own key.
pub proof fn law_announcement_members(device_id: Seq<char>, fields: Fields)
    ensures
        config_members(device_id, fields)["name"@] == string_json(fields.name),
        config_members(device_id, fields)["unique_id"@] == string_json(fields.unique_id),
        config_members(device_id, fields)["stat_t"@] == string_json(fields.stat_t),
        config_members(device_id, fields)["unit_of_measurement"@] == string_json(
            fields.unit_of_measurement,
        ),
        config_members(device_id, fields)["dev_cla"@] == string_json(fields.dev_cla),
        config_members(device_id, fields)["device"@] == object_json(device_members(device_id)),
        config_members(device_id, fields).dom() == set![
            "name"@,
            "unique_id"@,
            "stat_t"@,
            "unit_of_measurement"@,
            "dev_cla"@,
            "device"@,
        ],
{
    reveal_strlit("name");
    reveal_strlit("unique_id");
    reveal_strlit("stat_t");
    reveal_strlit("unit_of_measurement");
    reveal_strlit("dev_cla");
    reveal_strlit("device");
    assert("stat_t"@[0] == 's' && "device"@[0] == 'd' && "dev_cla"@[0] == 'd' && "name"@[0] == 'n'
        && "unique_id"@[0] == 'u' && "unit_of_measurement"@[0] == 'u');
    assert("device"@.len() == 6 && "dev_cla"@.len() == 7 && "unique_id"@.len() == 9
        && "unit_of_measurement"@.len() == 19);
    assert(config_members(device_id, fields).dom() =~= set![
        "name"@,
        "unique_id"@,
        "stat_t"@,
        "unit_of_measurement"@,
        "dev_cla"@,
        "device"@,
    ]);
}

/// The meter is described by four things: its identifier, alone in a list, its name, its
/// model and its maker.
pub proof fn law_device_members(device_id: Seq<char>)
    ensures
        device_members(device_id)["identifiers"@] == "["@ + string_json(device_id) + "]"@,
        device_members(device_id)["name"@] == string_json("Mercury Meter "@ + device_id),
        device_members(device_id)["model"@] == string_json("Mercury 236"@),
        device_members(device_id)["manufacturer"@] == string_json("Elster"@),
        device_members(device_id).dom() == set![
            "identifiers"@,
            "name"@,
            "model"@,
            "manufacturer"@,
        ],
{
    reveal_strlit("identifiers");
    reveal_strlit("name");
    reveal_strlit("model");
    reveal_strlit("manufacturer");
    assert("identifiers"@.len() == 11 && "name"@.len() == 4 && "model"@.len() == 5
        && "manufacturer"@.len() == 12);
    assert(array_json(seq![device_id]) == "["@ + string_json(device_id) + "]"@);
    assert(device_members(device_id).dom() =~= set![
        "identifiers"@,
        "name"@,
        "model"@,
        "manufacturer"@,
    ]);
}

proof fn lemma_tells(device_id: Seq<char>, fields: Fields)
    ensures
        tells(
            object_json(config_members(device_id, fields)),
            "name"@,
            string_json(fields.name),
        ),
        tells(
            object_json(config_members(device_id, fields)),
            "unique_id"@,
            string_json(fields.unique_id),
        ),
        tells(
            object_json(config_members(device_id, fields)),
            "stat_t"@,
            string_json(fields.stat_t),
        ),
        tells(
            object_json(config_members(device_id, fields)),
            "unit_of_measurement"@,
            string_json(fields.unit_of_measurement),
        ),
        tells(
            object_json(config_members(device_id, fields)),
            "dev_cla"@,
            string_json(fields.dev_cla),
        ),
        tells(
            object_json(config_members(device_id, fields)),
            "device"@,
            object_json(device_members(device_id)),
        ),
{
    law_announcement_members(device_id, fields);
    let members = config_members(device_id, fields);
    assert(members.dom().contains("name"@));
    assert(members.dom().contains("unique_id"@));
    assert(members.dom().contains("stat_t"@));
    assert(members.dom().contains("unit_of_measurement"@));
    assert(members.dom().contains("dev_cla"@));
    assert(members.dom().contains("device"@));
}

/// The unit and the kind of quantity that a sensor is announced with: volts and voltage
/// for the first three sensors, amperes and current for the next three, watts and power
/// for four, hertz and frequency for one, no unit and power factor for four, vars and
/// reactive power for four, and kilowatt-hours and energy for the last five.
pub proof fn law_announced_quantity(device_id: Seq<char>, mqtt_acc: Seq<char>, i: int)
    ensures
        ({
            let members = config_members(
                device_id,
                fields_of(device_id, mqtt_acc, definitions()[i]),
            );
            &&& 0 <= i < 3 ==> members["unit_of_measurement"@] == string_json("V"@)
                && members["dev_cla"@] == string_json("voltage"@)
            &&& 3 <= i < 6 ==> members["unit_of_measurement"@] == string_json("A"@)
                && members["dev_cla"@] == string_json("current"@)
            &&& 6 <= i < 10 ==> members["unit_of_measurement"@] == string_json("W"@)
                && members["dev_cla"@] == string_json("power"@)
            &&& 10 <= i < 11 ==> members["unit_of_measurement"@] == string_json("Hz"@)
                && members["dev_cla"@] == string_json("frequency"@)
            &&& 11 <= i < 15 ==> members["unit_of_measurement"@] == string_json(""@)
                && members["dev_cla"@] == string_json("power_factor"@)
            &&& 15 <= i < 19 ==> members["unit_of_measurement"@] == string_json("var"@)
                && members["dev_cla"@] == string_json("reactive_power"@)
            &&& 19 <= i < 24 ==> members["unit_of_measurement"@] == string_json("kWh"@)
                && members["dev_cla"@] == string_json("energy"@)
        }),
{
    law_announcement_members(device_id, fields_of(device_id, mqtt_acc, definitions()[i]));
    law_units_by_group(i);
}

/// What else a sensor is announced with: its name with that of the meter behind it, the
/// meter's name with its suffix behind it, and the topic of its readings.
pub proof fn law_announced_names(device_id: Seq<char>, mqtt_acc: Seq<char>, definition: Definition)
    ensures
        ({
            let members = config_members(device_id, fields_of(device_id, mqtt_acc, definition));
            &&& members["name"@] == string_json(definition.name + " "@ + device_id)
            &&& members["unique_id"@] == string_json(device_id + "_"@ + definition.suffix)
            &&& members["stat_t"@] == string_json(
                "/ssn/acc/"@ + mqtt_acc + "/obj/power/device/"@ + device_id + "/"@
                    + definition.suffix,
            )
            &&& members["unit_of_measurement"@] == string_json(definition.unit)
            &&& members["dev_cla"@] == string_json(definition.dev_class)
        }),
{
    law_announcement_members(device_id, fields_of(device_id, mqtt_acc, definition));
    law_topics_spelled_out(mqtt_acc, device_id, definition.suffix);
}

/// An announcement goes where its sensor is looked for, is kept by the broker and is
/// delivered at least once.
pub proof fn law_announcement_is_kept(
    device_id: Seq<char>,
    suffix: Seq<char>,
    payload: Seq<char>,
)
    ensures
        announcement(device_id, suffix, payload).topic == "homeassistant/sensor/"@ + device_id
            + "_"@ + suffix + "/config"@,
        announcement(device_id, suffix, payload).qos is AtLeastOnce,
        announcement(device_id, suffix, payload).retain,
        announcement(device_id, suffix, payload).payload == payload,
{
    law_topics_spelled_out(Seq::empty(), device_id, suffix);
}

/// The topic that a sensor's announcement names is the one that its readings are
/// published under.
pub proof fn law_announced_topic_is_used(device_id: Seq<char>, mqtt_acc: Seq<char>, i: int)
    requires
        0 <= i < SENSOR_COUNT,
    ensures
        config_members(device_id, fields_of(device_id, mqtt_acc, definitions()[i]))["stat_t"@]
            == string_json(state_topic(mqtt_acc, device_id, definitions()[i].suffix)),
{
    law_announcement_members(device_id, fields_of(device_id, mqtt_acc, definitions()[i]));
}

} // verus!
