//! What can go wrong between the monitor and the meter.

use vstd::prelude::*;

use crate::text::{
    decimal, hex_byte, hex_list, hex_word, push_decimal, push_hex_byte, push_hex_list,
    push_hex_word,
};

verus! {

/// Why an exchange with the meter gave no result.
#[derive(Debug)]
pub enum MeterError {
    /// The serial port failed, for the reason given.
    Port { reason: String },
    /// The meter sent nothing.
    NoResponse,
    /// The reply to a connection check is too short to be judged.
    ShortCheck,
    /// The checksum of a reply does not match its contents.
    CrcMismatch { computed: u16, carried: u16 },
    /// The meter answered a connection check with an error code.
    ErrorCode { code: u8 },
    /// The reply to the opening of a session is too short to be judged.
    ShortInit { reply: Vec<u8> },
    /// The meter refused to open a session.
    Refused { status: u8, reply: Vec<u8> },
    /// The reply holds no three voltages.
    ShortVoltage,
    /// The reply is too short for what was asked.
    ShortReading,
    /// The reply holds no power factors.
    ShortCosF { reply: Vec<u8> },
    /// The reply holds no reactive power.
    ShortReactivePower { reply: Vec<u8> },
}

/// A [`MeterError`] with its texts and bytes as sequences.
pub enum Fault {
    Port { reason: Seq<char> },
    NoResponse,
    ShortCheck,
    CrcMismatch { computed: u16, carried: u16 },
    ErrorCode { code: u8 },
    ShortInit { reply: Seq<u8> },
    Refused { status: u8, reply: Seq<u8> },
    ShortVoltage,
    ShortReading,
    ShortCosF { reply: Seq<u8> },
    ShortReactivePower { reply: Seq<u8> },
}

impl View for MeterError {
    type V = Fault;

    open spec fn view(&self) -> Fault {
        match *self {
            MeterError::Port { reason } => Fault::Port { reason: reason@ },
            MeterError::NoResponse => Fault::NoResponse,
            MeterError::ShortCheck => Fault::ShortCheck,
            MeterError::CrcMismatch { computed, carried } => Fault::CrcMismatch {
                computed,
                carried,
            },
            MeterError::ErrorCode { code } => Fault::ErrorCode { code },
            MeterError::ShortInit { reply } => Fault::ShortInit { reply: reply@ },
            MeterError::Refused { status, reply } => Fault::Refused { status, reply: reply@ },
            MeterError::ShortVoltage => Fault::ShortVoltage,
            MeterError::ShortReading => Fault::ShortReading,
            MeterError::ShortCosF { reply } => Fault::ShortCosF { reply: reply@ },
            MeterError::ShortReactivePower { reply } => Fault::ShortReactivePower {
                reply: reply@,
            },
        }
    }
}

/// The line that tells a reader of the log about a fault.
pub open spec fn fault_text(fault: Fault) -> Seq<char> {
    match fault {
        Fault::Port { reason } => reason,
        Fault::NoResponse => "No response from meter"@,
        Fault::ShortCheck => "Response too short"@,
        Fault::CrcMismatch { computed, carried } => "CRC Mismatch: "@ + hex_word(computed)
            + " != "@ + hex_word(carried),
        Fault::ErrorCode { code } => "Meter Error Code: "@ + decimal(code as nat),
        Fault::ShortInit { reply } => "Response too short: "@ + hex_list(reply),
        Fault::Refused { status, reply } => "Meter returned Error Code: "@ + hex_byte(status)
            + " (Bytes: "@ + hex_list(reply) + ")"@,
        Fault::ShortVoltage => "Short RX for Voltage"@,
        Fault::ShortReading => "Short RX"@,
        Fault::ShortCosF { reply } => "Response too short for CosF: "@ + hex_list(reply),
        Fault::ShortReactivePower { reply } => "Response too short for Reactive Power: "@
            + hex_list(reply),
    }
}

/// A result with its error as a [`Fault`].
pub open spec fn seen<T>(result: Result<T, MeterError>) -> Result<T, Fault> {
    match result {
        Ok(value) => Ok(value),
        Err(error) => Err(error@),
    }
}

/// What the log says of the faults that carry nothing.
pub proof fn law_plain_faults_told()
    ensures
        fault_text(Fault::NoResponse) == "No response from meter"@,
        fault_text(Fault::ShortCheck) == "Response too short"@,
        fault_text(Fault::ShortVoltage) == "Short RX for Voltage"@,
        fault_text(Fault::ShortReading) == "Short RX"@,
{
}

/// What the log says of the faults that carry something: the reason as it came, the
/// checksums and the status in hexadecimal, the error code in decimal, and the bytes of
/// the reply as a list.
pub proof fn law_faults_told(
    reason: Seq<char>,
    computed: u16,
    carried: u16,
    byte: u8,
    reply: Seq<u8>,
)
    ensures
        fault_text(Fault::Port { reason }) == reason,
        fault_text(Fault::CrcMismatch { computed, carried }) == "CRC Mismatch: "@ + hex_word(
            computed,
        ) + " != "@ + hex_word(carried),
        fault_text(Fault::ErrorCode { code: byte }) == "Meter Error Code: "@ + decimal(
            byte as nat,
        ),
        fault_text(Fault::ShortInit { reply }) == "Response too short: "@ + hex_list(reply),
        fault_text(Fault::Refused { status: byte, reply }) == "Meter returned Error Code: "@
            + hex_byte(byte) + " (Bytes: "@ + hex_list(reply) + ")"@,
        fault_text(Fault::ShortCosF { reply }) == "Response too short for CosF: "@ + hex_list(
            reply,
        ),
        fault_text(Fault::ShortReactivePower { reply })
            == "Response too short for Reactive Power: "@ + hex_list(reply),
{
}

impl MeterError {
    /// The error as a line for the log.
    pub fn message(&self) -> (line: String)
        ensures
            line@ == fault_text(self@),
            match *self {
                MeterError::Port { reason } => line@ == reason@,
                MeterError::NoResponse => line@ == "No response from meter"@,
                MeterError::ShortCheck => line@ == "Response too short"@,
                MeterError::CrcMismatch { computed, carried } => line@ == "CRC Mismatch: "@
                    + hex_word(computed) + " != "@ + hex_word(carried),
                MeterError::ErrorCode { code } => line@ == "Meter Error Code: "@ + decimal(
                    code as nat,
                ),
                MeterError::ShortInit { reply } => line@ == "Response too short: "@ + hex_list(
                    reply@,
                ),
                MeterError::Refused { status, reply } => line@ == "Meter returned Error Code: "@
                    + hex_byte(status) + " (Bytes: "@ + hex_list(reply@) + ")"@,
                MeterError::ShortVoltage => line@ == "Short RX for Voltage"@,
                MeterError::ShortReading => line@ == "Short RX"@,
                MeterError::ShortCosF { reply } => line@ == "Response too short for CosF: "@
                    + hex_list(reply@),
                MeterError::ShortReactivePower { reply } => line@
                    == "Response too short for Reactive Power: "@ + hex_list(reply@),
            },
    {
        match self {
            MeterError::Port { reason } => reason.clone(),
            MeterError::NoResponse => "No response from meter".to_owned(),
            MeterError::ShortCheck => "Response too short".to_owned(),
            MeterError::CrcMismatch { computed, carried } => {
                let mut line: String = "CRC Mismatch: ".to_owned();
                push_hex_word(&mut line, *computed);
                line.append(" != ");
                push_hex_word(&mut line, *carried);
                line
            },
            MeterError::ErrorCode { code } => {
                let mut line: String = "Meter Error Code: ".to_owned();
                push_decimal(&mut line, *code);
                line
            },
            MeterError::ShortInit { reply } => {
                let mut line: String = "Response too short: ".to_owned();
                push_hex_list(&mut line, reply.as_slice());
                line
            },
            MeterError::Refused { status, reply } => {
                let mut line: String = "Meter returned Error Code: ".to_owned();
                push_hex_byte(&mut line, *status);
                line.append(" (Bytes: ");
                push_hex_list(&mut line, reply.as_slice());
                line.append(")");
                line
            },
            MeterError::ShortVoltage => "Short RX for Voltage".to_owned(),
            MeterError::ShortReading => "Short RX".to_owned(),
            MeterError::ShortCosF { reply } => {
                let mut line: String = "Response too short for CosF: ".to_owned();
                push_hex_list(&mut line, reply.as_slice());
                line
            },
            MeterError::ShortReactivePower { reply } => {
                let mut line: String = "Response too short for Reactive Power: ".to_owned();
                push_hex_list(&mut line, reply.as_slice());
                line
            },
        }
    }
}

} // verus!
