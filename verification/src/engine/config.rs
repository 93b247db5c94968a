//! The parameters of the serial link, as they are written in a configuration
//! file and as the transport takes them.

use vstd::prelude::*;

verus! {

/// The serial parameters as a configuration file states them: numbers and
/// words, not yet checked against what the link knows.
#[derive(Debug)]
pub struct RawSerialConfiguration {
    pub baud_rate: u32,
    pub bit_length: u8,
    pub flow_control: String,
    pub parity: String,
    pub timeout: usize,
    pub stop_bits: String,
    pub input_path: String,
    pub output_path: String,
}

/// A configuration file as it was read.
#[derive(Debug)]
pub struct RawConfiguration {
    pub serial: RawSerialConfiguration,
}

/// Number of bits per character.
#[derive(Clone, Copy, Debug, PartialEq, Eq, Structural)]
pub enum DataBits {
    Five,
    Six,
    Seven,
    Eight,
}

/// Flow control modes.
#[derive(Clone, Copy, Debug, PartialEq, Eq, Structural)]
pub enum FlowControl {
    /// No flow control; written `None` in a configuration file.
    Off,
    /// Flow control using XON/XOFF bytes.
    Software,
    /// Flow control using RTS/CTS signals.
    Hardware,
}

/// Parity checking modes.
#[derive(Clone, Copy, Debug, PartialEq, Eq, Structural)]
pub enum Parity {
    /// No parity bit; written `None` in a configuration file.
    Off,
    /// Parity bit sets odd number of 1 bits.
    Odd,
    /// Parity bit sets even number of 1 bits.
    Even,
}

/// Number of stop bits.
#[derive(Clone, Copy, Debug, PartialEq, Eq, Structural)]
pub enum StopBits {
    One,
    Two,
}

/// The deserialized serial configuration.
#[derive(Debug)]
pub struct SerialConfiguration {
    pub baud_rate: u32,
    pub bit_length: DataBits,
    pub flow_control: FlowControl,
    pub parity: Parity,
    /// How long the link waits for data, in seconds.
    pub timeout: u64,
    pub stop_bits: StopBits,
    pub input_path: String,
    pub output_path: String,
}

/// The deserialized configuration object.
#[derive(Debug)]
pub struct Configuration {
    pub serial: SerialConfiguration,
}

/// The character size for a stated bit length: five to eight bits as stated,
/// eight for any other number.
pub open spec fn data_bits_for(bit_length: u8) -> DataBits {
    if bit_length == 5 {
        DataBits::Five
    } else if bit_length == 6 {
        DataBits::Six
    } else if bit_length == 7 {
        DataBits::Seven
    } else {
        DataBits::Eight
    }
}

/// The flow control for a stated word: `Software`, `None` or `Hardware` as
/// stated, hardware flow control for any other word.
pub open spec fn flow_control_for(word: Seq<char>) -> FlowControl {
    if word == "Software"@ {
        FlowControl::Software
    } else if word == "None"@ {
        FlowControl::Off
    } else {
        FlowControl::Hardware
    }
}

/// The parity for a stated word: `None`, `Odd` or `Even` as stated, no parity
/// for any other word.
pub open spec fn parity_for(word: Seq<char>) -> Parity {
    if word == "Odd"@ {
        Parity::Odd
    } else if word == "Even"@ {
        Parity::Even
    } else {
        Parity::Off
    }
}

/// The stop bits for a stated word: `One` or `Two` as stated, one stop bit
/// for any other word.
pub open spec fn stop_bits_for(word: Seq<char>) -> StopBits {
    if word == "Two"@ {
        StopBits::Two
    } else {
        StopBits::One
    }
}

/// Whether `text` is exactly `word`.
fn is_word(text: &String, word: &str) -> (same: bool)
    ensures
        same == (text@ == word@),
{
    *text == word.to_owned()
}

impl From<RawConfiguration> for Configuration {
    /// Turns the stated parameters into those of the link. Nothing is
    /// rejected: a number or a word that the link does not know is replaced
    /// by a default. The baud rate, the timeout and the two paths are kept.
    fn from(value: RawConfiguration) -> (configuration: Configuration)
        ensures
            configuration.serial.baud_rate == value.serial.baud_rate,
            configuration.serial.bit_length == data_bits_for(value.serial.bit_length),
            configuration.serial.flow_control == flow_control_for(value.serial.flow_control@),
            configuration.serial.parity == parity_for(value.serial.parity@),
            configuration.serial.timeout == value.serial.timeout,
            configuration.serial.stop_bits == stop_bits_for(value.serial.stop_bits@),
            configuration.serial.input_path == value.serial.input_path,
            configuration.serial.output_path == value.serial.output_path,
    {
        let baud_rate: u32 = value.serial.baud_rate;
        let bit_length = match value.serial.bit_length {
            5 => DataBits::Five,
            6 => DataBits::Six,
            7 => DataBits::Seven,
            8 => DataBits::Eight,
            _default => DataBits::Eight,
        };
        let flow_control = if is_word(&value.serial.flow_control, "Software") {
            FlowControl::Software
        } else if is_word(&value.serial.flow_control, "None") {
            FlowControl::Off
        } else {
            FlowControl::Hardware
        };
        let parity = if is_word(&value.serial.parity, "Odd") {
            Parity::Odd
        } else if is_word(&value.serial.parity, "Even") {
            Parity::Even
        } else {
            Parity::Off
        };
        let timeout = value.serial.timeout as u64;
        let stop_bits = if is_word(&value.serial.stop_bits, "Two") {
            StopBits::Two
        } else {
            StopBits::One
        };
        let input_path = value.serial.input_path;
        let output_path = value.serial.output_path;

        Self {
            serial: SerialConfiguration {
                baud_rate,
                bit_length,
                flow_control,
                parity,
                timeout,
                stop_bits,
                input_path,
                output_path,
            },
        }
    }
}

impl vstd::std_specs::convert::FromSpecImpl<RawConfiguration> for Configuration {
    open spec fn obeys_from_spec() -> bool {
        true
    }

    open spec fn from_spec(value: RawConfiguration) -> Configuration {
        Configuration {
            serial: SerialConfiguration {
                baud_rate: value.serial.baud_rate,
                bit_length: data_bits_for(value.serial.bit_length),
                flow_control: flow_control_for(value.serial.flow_control@),
                parity: parity_for(value.serial.parity@),
                timeout: value.serial.timeout as u64,
                stop_bits: stop_bits_for(value.serial.stop_bits@),
                input_path: value.serial.input_path,
                output_path: value.serial.output_path,
            },
        }
    }
}

} // verus!
