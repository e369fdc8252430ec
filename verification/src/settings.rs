//! The settings of the monitor, as the environment gives them.

use vstd::prelude::*;

use crate::number::{law_number_is_value, number, parse_number, scan, NumberError};

verus! {

/// How much is logged.
#[derive(Debug, Clone, Copy, PartialEq, Eq, Structural)]
pub enum Level {
    Debug,
    Info,
    Warn,
    Error,
}

/// The variables of the environment that are looked at, as far as they are set.
#[derive(Debug)]
pub struct Variables {
    pub serial_port: Option<String>,
    pub baud_rate: Option<String>,
    pub mqtt_host: Option<String>,
    pub mqtt_port: Option<String>,
    pub mqtt_user: Option<String>,
    pub mqtt_password: Option<String>,
    pub account_id: Option<String>,
    pub device_id: Option<String>,
    pub poll_interval: Option<String>,
}

/// Everything that can be set.
#[derive(Debug)]
pub struct Settings {
    pub serial_path: String,
    pub baudrate: u32,
    pub mqtt_host: String,
    pub mqtt_port: u16,
    pub mqtt_user: String,
    pub mqtt_pass: String,
    pub mqtt_acc: String,
    pub device_id: String,
    pub poll_interval: u64,
}

/// The text of a variable, or its default.
pub open spec fn text_or(variable: Option<String>, default: Seq<char>) -> Seq<char> {
    match variable {
        Some(text) => text@,
        None => default,
    }
}

/// The level that a text names. Anything unknown, and no text at all, means `Info`.
pub open spec fn level_named(name: Option<Seq<char>>) -> Level {
    match name {
        Some(text) => if text == "debug"@ {
            Level::Debug
        } else if text == "warn"@ {
            Level::Warn
        } else if text == "error"@ {
            Level::Error
        } else {
            Level::Info
        },
        None => Level::Info,
    }
}

/// The serial speed that is set.
pub open spec fn baud_rate_in(v: Variables) -> Result<nat, NumberError> {
    number(text_or(v.baud_rate, "9600"@), u32::MAX as nat)
}

/// The port of the broker that is set.
pub open spec fn mqtt_port_in(v: Variables) -> Result<nat, NumberError> {
    number(text_or(v.mqtt_port, "1883"@), u16::MAX as nat)
}

/// The number of seconds between cycles that is set.
pub open spec fn poll_interval_in(v: Variables) -> Result<nat, NumberError> {
    number(text_or(v.poll_interval, "60"@), u64::MAX as nat)
}

/// The first of the numbers that cannot be read, in the order in which they are
/// looked at.
pub open spec fn first_error(v: Variables) -> Option<NumberError> {
    if baud_rate_in(v) is Err {
        Some(baud_rate_in(v)->Err_0)
    } else if mqtt_port_in(v) is Err {
        Some(mqtt_port_in(v)->Err_0)
    } else if poll_interval_in(v) is Err {
        Some(poll_interval_in(v)->Err_0)
    } else {
        None
    }
}

fn or_default(variable: Option<String>, default: &str) -> (text: String)
    ensures
        text@ == text_or(variable, default@),
{
    match variable {
        Some(text) => text,
        None => default.to_owned(),
    }
}

/// The level that `LOG_LEVEL` asks for.
pub fn log_level(name: Option<String>) -> (level: Level)
    ensures
        level == level_named(
            match name {
                Some(text) => Some(text@),
                None => None,
            },
        ),
        match name {
            Some(text) => {
                &&& level is Debug <==> text@ == "debug"@
                &&& level is Warn <==> text@ == "warn"@
                &&& level is Error <==> text@ == "error"@
            },
            None => level is Info,
        },
{
    proof {
        lemma_level_names_differ();
    }
    match name {
        Some(text) => {
            if text == "debug".to_owned() {
                Level::Debug
            } else if text == "warn".to_owned() {
                Level::Warn
            } else if text == "error".to_owned() {
                Level::Error
            } else {
                Level::Info
            }
        },
        None => Level::Info,
    }
}

impl Settings {
    /// Settles what the environment leaves open. Fails on the first number that
    /// cannot be read.
    pub fn from_variables(v: Variables) -> (settings: Result<Settings, NumberError>)
        ensures
            match settings {
                Ok(s) => {
                    &&& first_error(v) == None::<NumberError>
                    &&& s.serial_path@ == text_or(v.serial_port, "/dev/ttyUSB0"@)
                    &&& baud_rate_in(v) == Ok::<nat, NumberError>(s.baudrate as nat)
                    &&& s.mqtt_host@ == text_or(v.mqtt_host, "192.168.3.150"@)
                    &&& mqtt_port_in(v) == Ok::<nat, NumberError>(s.mqtt_port as nat)
                    &&& s.mqtt_user@ == text_or(v.mqtt_user, "mosquitto"@)
                    &&& s.mqtt_pass@ == text_or(v.mqtt_password, "test"@)
                    &&& s.mqtt_acc@ == text_or(v.account_id, "1"@)
                    &&& s.device_id@ == text_or(v.device_id, "mercury_02"@)
                    &&& poll_interval_in(v) == Ok::<nat, NumberError>(s.poll_interval as nat)
                },
                Err(error) => first_error(v) == Some(error),
            },
            settings matches Ok(s) ==> match v.serial_port {
                Some(text) => s.serial_path@ == text@,
                None => s.serial_path@ == "/dev/ttyUSB0"@,
            },
            settings matches Ok(s) ==> match v.mqtt_host {
                Some(text) => s.mqtt_host@ == text@,
                None => s.mqtt_host@ == "192.168.3.150"@,
            },
            settings matches Ok(s) ==> match v.mqtt_user {
                Some(text) => s.mqtt_user@ == text@,
                None => s.mqtt_user@ == "mosquitto"@,
            },
            settings matches Ok(s) ==> match v.mqtt_password {
                Some(text) => s.mqtt_pass@ == text@,
                None => s.mqtt_pass@ == "test"@,
            },
            settings matches Ok(s) ==> match v.account_id {
                Some(text) => s.mqtt_acc@ == text@,
                None => s.mqtt_acc@ == "1"@,
            },
            settings matches Ok(s) ==> match v.device_id {
                Some(text) => s.device_id@ == text@,
                None => s.device_id@ == "mercury_02"@,
            },
            settings matches Ok(s) ==> match v.baud_rate {
                Some(text) => number(text@, 0xffff_ffff) == Ok::<nat, NumberError>(s.baudrate as nat),
                None => s.baudrate == 9600,
            },
            settings matches Ok(s) ==> match v.mqtt_port {
                Some(text) => number(text@, 0xffff) == Ok::<nat, NumberError>(s.mqtt_port as nat),
                None => s.mqtt_port == 1883,
            },
            settings matches Ok(s) ==> match v.poll_interval {
                Some(text) => number(text@, 0xffff_ffff_ffff_ffff) == Ok::<nat, NumberError>(s.poll_interval as nat),
                None => s.poll_interval == 60,
            },
    {
        proof {
            law_missing_numbers(v);
        }
        let baudrate: u64 = match parse_number(
            or_default(v.baud_rate, "9600").as_str(),
            u32::MAX as u64,
        ) {
            Ok(n) => n,
            Err(error) => {
                return Err(error);
            },
        };
        let mqtt_port: u64 = match parse_number(
            or_default(v.mqtt_port, "1883").as_str(),
            u16::MAX as u64,
        ) {
            Ok(n) => n,
            Err(error) => {
                return Err(error);
            },
        };
        let poll_interval: u64 = match parse_number(
            or_default(v.poll_interval, "60").as_str(),
            u64::MAX,
        ) {
            Ok(n) => n,
            Err(error) => {
                return Err(error);
            },
        };
        proof {
            law_number_is_value(
                text_or(v.baud_rate, "9600"@),
                u32::MAX as nat,
                baudrate as nat,
            );
            law_number_is_value(
                text_or(v.mqtt_port, "1883"@),
                u16::MAX as nat,
                mqtt_port as nat,
            );
        }
        Ok(
            Settings {
                serial_path: or_default(v.serial_port, "/dev/ttyUSB0"),
                baudrate: baudrate as u32,
                mqtt_host: or_default(v.mqtt_host, "192.168.3.150"),
                mqtt_port: mqtt_port as u16,
                mqtt_user: or_default(v.mqtt_user, "mosquitto"),
                mqtt_pass: or_default(v.mqtt_password, "test"),
                mqtt_acc: or_default(v.account_id, "1"),
                device_id: or_default(v.device_id, "mercury_02"),
                poll_interval,
            },
        )
    }

    /// Whether the broker is given a name and a password: if at least one of them
    /// is not empty.
    pub fn has_credentials(&self) -> (has: bool)
        ensures
            has <==> self.mqtt_user@.len() > 0 || self.mqtt_pass@.len() > 0,
    {
        !self.mqtt_user.as_str().is_empty() || !self.mqtt_pass.as_str().is_empty()
    }
}

proof fn lemma_level_names_differ()
    ensures
        "debug"@ != "warn"@,
        "debug"@ != "error"@,
        "warn"@ != "error"@,
{
    reveal_strlit("debug");
    reveal_strlit("warn");
    reveal_strlit("error");
    assert("debug"@[0] == 'd' && "warn"@[0] == 'w' && "error"@[0] == 'e');
}

/// Three words each name a level of their own; every other word, and none, is `Info`.
pub proof fn law_levels_by_name(text: Seq<char>)
    ensures
        level_named(Some(text)) is Debug <==> text == "debug"@,
        level_named(Some(text)) is Warn <==> text == "warn"@,
        level_named(Some(text)) is Error <==> text == "error"@,
        level_named(None) is Info,
{
    lemma_level_names_differ();
}

/// A variable that is set is taken as it is, and one that is not, at its default.
pub proof fn law_set_text_is_kept(text: String, default: Seq<char>)
    ensures
        text_or(Some(text), default) == text@,
        text_or(None, default) == default,
{
}

/// A number that is not set is 9600 for the serial speed, 1883 for the broker's port and
/// 60 for the seconds between cycles; one that is set is read, up to what 32, 16 and 64
/// bits hold.
pub proof fn law_missing_numbers(v: Variables)
    ensures
        baud_rate_in(v) == match v.baud_rate {
            Some(text) => number(text@, 0xffff_ffff),
            None => Ok(9600),
        },
        mqtt_port_in(v) == match v.mqtt_port {
            Some(text) => number(text@, 0xffff),
            None => Ok(1883),
        },
        poll_interval_in(v) == match v.poll_interval {
            Some(text) => number(text@, 0xffff_ffff_ffff_ffff),
            None => Ok(60),
        },
{
    reveal_strlit("9600");
    reveal_strlit("1883");
    reveal_strlit("60");
    reveal_with_fuel(scan, 5);
}

/// The settings fail exactly when one of the three numbers cannot be read, with the error
/// of the first of them: the serial speed, the broker's port, the time between cycles.
pub proof fn law_first_error_is_reported(v: Variables)
    ensures
        ({
            let speed = match v.baud_rate {
                Some(text) => number(text@, 0xffff_ffff),
                None => Ok(9600),
            };
            let port = match v.mqtt_port {
                Some(text) => number(text@, 0xffff),
                None => Ok(1883),
            };
            let seconds = match v.poll_interval {
                Some(text) => number(text@, 0xffff_ffff_ffff_ffff),
                None => Ok(60),
            };
            first_error(v) == match (speed, port, seconds) {
                (Err(error), _, _) => Some(error),
                (Ok(_), Err(error), _) => Some(error),
                (Ok(_), Ok(_), Err(error)) => Some(error),
                (Ok(_), Ok(_), Ok(_)) => None,
            }
        }),
{
    law_missing_numbers(v);
}

/// An environment in which nothing is set gives working settings: the serial line
/// at 9600 baud, the broker at port 1883, and a cycle every minute.
pub proof fn law_defaults_work(v: Variables)
    requires
        v.baud_rate is None,
        v.mqtt_port is None,
        v.poll_interval is None,
    ensures
        first_error(v) == None::<NumberError>,
        baud_rate_in(v) == Ok::<nat, NumberError>(9600),
        mqtt_port_in(v) == Ok::<nat, NumberError>(1883),
        poll_interval_in(v) == Ok::<nat, NumberError>(60),
{
    reveal_strlit("9600");
    reveal_strlit("1883");
    reveal_strlit("60");
    reveal_with_fuel(scan, 5);
}

} // verus!
