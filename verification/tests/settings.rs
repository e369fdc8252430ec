use mercury_monitor::number::{parse_number, NumberError};
use mercury_monitor::settings::{log_level, Level, Settings, Variables};

fn unset() -> Variables {
    Variables {
        serial_port: None,
        baud_rate: None,
        mqtt_host: None,
        mqtt_port: None,
        mqtt_user: None,
        mqtt_password: None,
        account_id: None,
        device_id: None,
        poll_interval: None,
    }
}

fn set(text: &str) -> Option<String> {
    Some(text.to_string())
}

#[test]
fn defaults() {
    let s = Settings::from_variables(unset()).unwrap();
    assert_eq!(s.serial_path, "/dev/ttyUSB0");
    assert_eq!(s.baudrate, 9600);
    assert_eq!(s.mqtt_host, "192.168.3.150");
    assert_eq!(s.mqtt_port, 1883);
    assert_eq!(s.mqtt_user, "mosquitto");
    assert_eq!(s.mqtt_pass, "test");
    assert_eq!(s.mqtt_acc, "1");
    assert_eq!(s.device_id, "mercury_02");
    assert_eq!(s.poll_interval, 60);
    assert!(s.has_credentials());
}

#[test]
fn everything_set() {
    let s = Settings::from_variables(Variables {
        serial_port: set("/dev/ttyS1"),
        baud_rate: set("115200"),
        mqtt_host: set("broker"),
        mqtt_port: set("8883"),
        mqtt_user: set(""),
        mqtt_password: set(""),
        account_id: set("7"),
        device_id: set("cellar"),
        poll_interval: set("+5"),
    })
    .unwrap();
    assert_eq!(s.serial_path, "/dev/ttyS1");
    assert_eq!(s.baudrate, 115200);
    assert_eq!(s.mqtt_host, "broker");
    assert_eq!(s.mqtt_port, 8883);
    assert_eq!(s.mqtt_acc, "7");
    assert_eq!(s.device_id, "cellar");
    assert_eq!(s.poll_interval, 5);
    assert!(!s.has_credentials());
}

#[test]
fn credentials_need_a_name_or_a_password() {
    let named = Variables { mqtt_password: set(""), ..unset() };
    assert!(Settings::from_variables(named).unwrap().has_credentials());
    let nameless = Variables { mqtt_user: set(""), ..unset() };
    assert!(Settings::from_variables(nameless).unwrap().has_credentials());
}

#[test]
fn first_bad_number_is_reported() {
    let v = Variables { baud_rate: set(""), mqtt_port: set("x"), ..unset() };
    assert!(matches!(Settings::from_variables(v), Err(NumberError::Empty)));
    let v = Variables { mqtt_port: set("65536"), poll_interval: set(""), ..unset() };
    assert!(matches!(Settings::from_variables(v), Err(NumberError::PosOverflow)));
    let v = Variables { poll_interval: set("60s"), ..unset() };
    assert!(matches!(Settings::from_variables(v), Err(NumberError::InvalidDigit)));
}

#[test]
fn levels() {
    assert_eq!(log_level(None), Level::Info);
    assert_eq!(log_level(set("debug")), Level::Debug);
    assert_eq!(log_level(set("info")), Level::Info);
    assert_eq!(log_level(set("warn")), Level::Warn);
    assert_eq!(log_level(set("error")), Level::Error);
    assert_eq!(log_level(set("DEBUG")), Level::Info);
    assert_eq!(log_level(set("")), Level::Info);
}

#[test]
fn numbers_are_read_as_the_standard_library_reads_them() {
    let texts = [
        "", "+", "-", "0", "-0", "+0", "00", "7", "+7", "++7", "+-7", "65535", "65536", "65540",
        "99999", "99999x", "x99999", "655x6", "6553x6", "4294967295", "4294967296", " 1", "1 ",
        "1_0", "0x10", "\u{661}", "1\u{661}", "00000000000000000000000000001",
        "18446744073709551615", "18446744073709551616", "184467440737095516160", "9999999999999",
        "184467440737095516159x", "18446744073709551616x",
    ];
    for text in texts {
        let expect16 = text.parse::<u16>().map(u64::from).map_err(|e| e.to_string());
        let expect32 = text.parse::<u32>().map(u64::from).map_err(|e| e.to_string());
        let expect64 = text.parse::<u64>().map_err(|e| e.to_string());
        let read = |max| parse_number(text, max).map_err(|e| e.message());
        assert_eq!(read(u16::MAX as u64), expect16, "{:?}", text);
        assert_eq!(read(u32::MAX as u64), expect32, "{:?}", text);
        assert_eq!(read(u64::MAX), expect64, "{:?}", text);
    }
}

#[test]
fn written_numbers_are_read_back() {
    for n in [0u64, 9, 10, 1883, 9600, u64::MAX] {
        assert_eq!(parse_number(&n.to_string(), u64::MAX), Ok(n));
    }
    assert_eq!(parse_number("7", 7), Ok(7));
    assert_eq!(parse_number("8", 7), Err(NumberError::PosOverflow));
}
