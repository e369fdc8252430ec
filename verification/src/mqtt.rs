//! Messages to the MQTT broker and the topics that they go to.

use vstd::prelude::*;

use crate::sensor::{definitions, law_suffixes_differ, SENSOR_COUNT};
use crate::text::lemma_same_start;

verus! {

/// How hard the broker tries to deliver a message.
#[derive(Debug, Clone, Copy, PartialEq, Eq, Structural)]
pub enum Qos {
    AtMostOnce,
    AtLeastOnce,
}

/// A message to be published.
#[derive(Debug)]
pub struct Publish {
    pub topic: String,
    pub qos: Qos,
    pub retain: bool,
    pub payload: String,
}

/// A [`Publish`] with its texts as sequences.
pub struct Message {
    pub topic: Seq<char>,
    pub qos: Qos,
    pub retain: bool,
    pub payload: Seq<char>,
}

impl View for Publish {
    type V = Message;

    open spec fn view(&self) -> Message {
        Message {
            topic: self.topic@,
            qos: self.qos,
            retain: self.retain,
            payload: self.payload@,
        }
    }
}

/// What the topics of all readings of a meter begin with.
pub open spec fn state_base(mqtt_acc: Seq<char>, device_id: Seq<char>) -> Seq<char> {
    "/ssn/acc/"@ + mqtt_acc + "/obj/power/device/"@ + device_id + "/"@
}

/// The topic of the readings of a sensor.
pub open spec fn state_topic(
    mqtt_acc: Seq<char>,
    device_id: Seq<char>,
    suffix: Seq<char>,
) -> Seq<char> {
    state_base(mqtt_acc, device_id) + suffix
}

/// The topic under which a sensor is announced.
pub open spec fn config_topic(device_id: Seq<char>, suffix: Seq<char>) -> Seq<char> {
    "homeassistant/sensor"@ + "/"@ + device_id + "_"@ + suffix + "/config"@
}

/// The name of a sensor among those of all meters.
pub open spec fn unique_id(device_id: Seq<char>, suffix: Seq<char>) -> Seq<char> {
    device_id + "_"@ + suffix
}

/// Builds what the topics of all readings of a meter begin with.
pub fn make_state_base(mqtt_acc: &str, device_id: &str) -> (base: String)
    ensures
        base@ == state_base(mqtt_acc@, device_id@),
        base@ == "/ssn/acc/"@ + mqtt_acc@ + "/obj/power/device/"@ + device_id@ + "/"@,
{
    let mut base: String = "/ssn/acc/".to_owned();
    base.append(mqtt_acc);
    base.append("/obj/power/device/");
    base.append(device_id);
    base.append("/");
    base
}

/// Builds the topic of the readings of a sensor.
pub fn make_state_topic(mqtt_acc: &str, device_id: &str, suffix: &str) -> (topic: String)
    ensures
        topic@ == state_topic(mqtt_acc@, device_id@, suffix@),
        topic@ == "/ssn/acc/"@ + mqtt_acc@ + "/obj/power/device/"@ + device_id@ + "/"@
            + suffix@,
{
    let mut topic: String = make_state_base(mqtt_acc, device_id);
    topic.append(suffix);
    topic
}

/// Builds the topic under which a sensor is announced.
pub fn make_config_topic(device_id: &str, suffix: &str) -> (topic: String)
    ensures
        topic@ == config_topic(device_id@, suffix@),
        topic@ == "homeassistant/sensor/"@ + device_id@ + "_"@ + suffix@ + "/config"@,
{
    proof {
        law_topics_spelled_out(Seq::empty(), device_id@, suffix@);
    }
    let mut topic: String = "homeassistant/sensor".to_owned();
    topic.append("/");
    topic.append(device_id);
    topic.append("_");
    topic.append(suffix);
    topic.append("/config");
    topic
}

/// Builds the name of a sensor among those of all meters.
pub fn make_unique_id(device_id: &str, suffix: &str) -> (id: String)
    ensures
        id@ == unique_id(device_id@, suffix@),
        id@ == device_id@ + "_"@ + suffix@,
{
    let mut id: String = device_id.to_owned();
    id.append("_");
    id.append(suffix);
    id
}

/// Where a sensor reports, where it is announced, and what it is called.
pub proof fn law_topics_spelled_out(
    mqtt_acc: Seq<char>,
    device_id: Seq<char>,
    suffix: Seq<char>,
)
    ensures
        state_topic(mqtt_acc, device_id, suffix) == "/ssn/acc/"@ + mqtt_acc + "/obj/power/device/"@
            + device_id + "/"@ + suffix,
        config_topic(device_id, suffix) == "homeassistant/sensor/"@ + device_id + "_"@ + suffix
            + "/config"@,
        unique_id(device_id, suffix) == device_id + "_"@ + suffix,
        config_topic(device_id, suffix) == "homeassistant/sensor/"@ + unique_id(device_id, suffix)
            + "/config"@,
{
    reveal_strlit("homeassistant/sensor");
    reveal_strlit("/");
    reveal_strlit("homeassistant/sensor/");
    assert("homeassistant/sensor"@ + "/"@ =~= "homeassistant/sensor/"@);
    assert("homeassistant/sensor/"@ + device_id + "_"@ + suffix =~= "homeassistant/sensor/"@
        + unique_id(device_id, suffix));
}

/// The sensors of a meter do not get in each other's way: no two have the same
/// topic for their readings, the same topic for their announcement, or the same
/// name.
pub proof fn law_sensors_apart(mqtt_acc: Seq<char>, device_id: Seq<char>, i: int, j: int)
    requires
        0 <= i < SENSOR_COUNT,
        0 <= j < SENSOR_COUNT,
        i != j,
    ensures
        state_topic(mqtt_acc, device_id, definitions()[i].suffix) != state_topic(
            mqtt_acc,
            device_id,
            definitions()[j].suffix,
        ),
        config_topic(device_id, definitions()[i].suffix) != config_topic(
            device_id,
            definitions()[j].suffix,
        ),
        unique_id(device_id, definitions()[i].suffix) != unique_id(
            device_id,
            definitions()[j].suffix,
        ),
{
    let a = definitions()[i].suffix;
    let b = definitions()[j].suffix;
    if a == b {
        law_suffixes_differ(i, j);
    }
    if state_topic(mqtt_acc, device_id, a) == state_topic(mqtt_acc, device_id, b) {
        lemma_same_start(state_base(mqtt_acc, device_id), a, b);
    }
    if unique_id(device_id, a) == unique_id(device_id, b) {
        lemma_same_start(device_id + "_"@, a, b);
    }
    if config_topic(device_id, a) == config_topic(device_id, b) {
        let start = "homeassistant/sensor"@ + "/"@ + device_id + "_"@;
        let end = "/config"@;
        assert((start + a) + end =~= start + (a + end));
        assert((start + b) + end =~= start + (b + end));
        lemma_same_start(start, a + end, b + end);
        assert((a + end).len() == (b + end).len());
        assert(a =~= (a + end).take(a.len() as int));
        assert(b =~= (b + end).take(b.len() as int));
    }
}

} // verus!
