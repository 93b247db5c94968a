use escpos_decoder::engine::config::{
    Configuration, DataBits, FlowControl, Parity, RawConfiguration, RawSerialConfiguration,
    StopBits,
};

fn raw(bit_length: u8, flow_control: &str, parity: &str, stop_bits: &str) -> RawConfiguration {
    RawConfiguration {
        serial: RawSerialConfiguration {
            baud_rate: 9600,
            bit_length,
            flow_control: flow_control.to_string(),
            parity: parity.to_string(),
            timeout: 10,
            stop_bits: stop_bits.to_string(),
            input_path: "COM3".to_string(),
            output_path: "COM4".to_string(),
        },
    }
}

#[test]
fn stated_values_are_kept() {
    let configuration = Configuration::from(raw(7, "Software", "Even", "Two"));
    assert_eq!(configuration.serial.baud_rate, 9600);
    assert_eq!(configuration.serial.bit_length, DataBits::Seven);
    assert_eq!(configuration.serial.flow_control, FlowControl::Software);
    assert_eq!(configuration.serial.parity, Parity::Even);
    assert_eq!(configuration.serial.timeout, 10);
    assert_eq!(configuration.serial.stop_bits, StopBits::Two);
    assert_eq!(configuration.serial.input_path, "COM3");
    assert_eq!(configuration.serial.output_path, "COM4");
}

#[test]
fn every_bit_length() {
    assert_eq!(Configuration::from(raw(5, "None", "None", "One")).serial.bit_length, DataBits::Five);
    assert_eq!(Configuration::from(raw(6, "None", "None", "One")).serial.bit_length, DataBits::Six);
    assert_eq!(Configuration::from(raw(7, "None", "None", "One")).serial.bit_length, DataBits::Seven);
    assert_eq!(Configuration::from(raw(8, "None", "None", "One")).serial.bit_length, DataBits::Eight);
    assert_eq!(Configuration::from(raw(4, "None", "None", "One")).serial.bit_length, DataBits::Eight);
    assert_eq!(Configuration::from(raw(9, "None", "None", "One")).serial.bit_length, DataBits::Eight);
    assert_eq!(Configuration::from(raw(0, "None", "None", "One")).serial.bit_length, DataBits::Eight);
}

#[test]
fn every_flow_control() {
    let of = |word: &str| Configuration::from(raw(8, word, "None", "One")).serial.flow_control;
    assert_eq!(of("None"), FlowControl::Off);
    assert_eq!(of("Software"), FlowControl::Software);
    assert_eq!(of("Hardware"), FlowControl::Hardware);
    assert_eq!(of("software"), FlowControl::Hardware);
    assert_eq!(of(""), FlowControl::Hardware);
}

#[test]
fn every_parity() {
    let of = |word: &str| Configuration::from(raw(8, "None", word, "One")).serial.parity;
    assert_eq!(of("None"), Parity::Off);
    assert_eq!(of("Odd"), Parity::Odd);
    assert_eq!(of("Even"), Parity::Even);
    assert_eq!(of("Mark"), Parity::Off);
}

#[test]
fn every_stop_bits() {
    let of = |word: &str| Configuration::from(raw(8, "None", "None", word)).serial.stop_bits;
    assert_eq!(of("One"), StopBits::One);
    assert_eq!(of("Two"), StopBits::Two);
    assert_eq!(of("Three"), StopBits::One);
}
