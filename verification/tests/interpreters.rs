use escpos_decoder::engine::interpreters::{
    ByteInterpreter, EscHandler, Interpretable, InterpretableClone,
};
use escpos_decoder::interop::opos::{ESC, EXCLAMATION, GS, MINUS, SP, UPPER_E};

fn decode_pairs(buffer: &[u8]) -> Vec<(u8, Vec<u8>)> {
    let mut interpreter = ByteInterpreter::new(buffer);
    interpreter.add_interpretable(ESC, Box::new(EscHandler::new()));
    let result = interpreter.interpret_buffer().unwrap();
    result.iter().map(|found| (found.subcommand(), found.args().to_vec())).collect()
}

#[test]
fn handler_turns_down_what_it_does_not_know() {
    let mut handler = EscHandler::new();
    assert!(!handler.is_valid());
    assert!(!handler.assign_bytes(0, Some(1)));
    assert!(!handler.assign_bytes(UPPER_E, Some(1)));
    assert!(!handler.assign_bytes(GS, None));
    assert!(!handler.is_valid());
    assert_eq!(handler.subcommand(), 0);
    assert_eq!(handler.args(), &[] as &[u8]);
}

#[test]
fn handler_waits_on_lead_in() {
    let mut handler = EscHandler::new();
    assert!(handler.assign_bytes(ESC, None));
    assert!(handler.assign_bytes(ESC, Some(EXCLAMATION)));
    assert!(handler.assign_bytes(ESC, Some(SP)));
    assert!(handler.assign_bytes(ESC, Some(MINUS)));
    assert!(!handler.assign_bytes(ESC, Some(UPPER_E)));
    assert!(!handler.assign_bytes(ESC, Some(ESC)));
    assert!(!handler.is_valid());
    assert_eq!(handler.args(), &[] as &[u8]);
}

#[test]
fn handler_stores_subcommand_and_argument() {
    let mut handler = EscHandler::new();
    assert!(handler.assign_bytes(MINUS, None));
    assert!(!handler.is_valid());
    assert!(!handler.assign_bytes(MINUS, Some(255)));
    assert!(handler.is_valid());
    assert_eq!(handler.subcommand(), MINUS);
    assert_eq!(handler.args(), &[255]);

    let copy = handler.clone_box();
    assert!(!handler.assign_bytes(SP, Some(1)));
    assert_eq!(handler.subcommand(), SP);
    assert_eq!(handler.args(), &[255, 1]);
    assert_eq!(copy.subcommand(), MINUS);
    assert_eq!(copy.args(), &[255]);
    assert!(copy.is_valid());
}

#[test]
fn handler_with_two_arguments_is_not_valid() {
    let mut handler = EscHandler::new();
    assert!(!handler.assign_bytes(MINUS, Some(255)));
    assert!(handler.is_valid());
    assert!(!handler.assign_bytes(SP, Some(1)));
    assert_eq!(handler.subcommand(), SP);
    assert_eq!(handler.args(), &[255, 1]);
    assert!(!handler.is_valid());
}

#[test]
fn pairs_prototype_that_holds_a_command_yields_nothing() {
    // Each copy of such a prototype ends up with a second argument.
    let mut prototype = EscHandler::new();
    assert!(!prototype.assign_bytes(MINUS, Some(7)));
    let buffer = [ESC, SP, 3, 0, ESC, 9, 0];
    let mut interpreter = ByteInterpreter::new(&buffer);
    interpreter.add_interpretable(ESC, Box::new(prototype));
    let result = interpreter.interpret_buffer().unwrap();
    // The first occurrence stores a second pair and is dropped; the second
    // stores nothing and is handed out as the prototype holds it.
    assert_eq!(result.len(), 1);
    assert_eq!((result[0].subcommand(), result[0].args()), (MINUS, &[7u8][..]));
}

#[test]
fn pairs_without_lead_in() {
    assert_eq!(decode_pairs(&[]), vec![]);
    assert_eq!(decode_pairs(&[1, 2, EXCLAMATION, 4, GS, MINUS, 0]), vec![]);
}

#[test]
fn pairs_one_command() {
    assert_eq!(decode_pairs(&[ESC, EXCLAMATION, 32, 0]), vec![(EXCLAMATION, vec![32])]);
    assert_eq!(decode_pairs(&[ESC, EXCLAMATION, 32]), vec![(EXCLAMATION, vec![32])]);
}

#[test]
fn pairs_two_commands() {
    assert_eq!(
        decode_pairs(&[ESC, MINUS, 255, 0, ESC, SP, 231, 0]),
        vec![(MINUS, vec![255]), (SP, vec![231])]
    );
}

#[test]
fn pairs_missing_argument() {
    assert_eq!(decode_pairs(&[ESC, EXCLAMATION]), vec![]);
    assert_eq!(decode_pairs(&[ESC]), vec![]);
    assert_eq!(decode_pairs(&[0, ESC, MINUS, 1, 0, ESC, SP]), vec![(MINUS, vec![1])]);
}

#[test]
fn pairs_unknown_subcommand() {
    assert_eq!(decode_pairs(&[ESC, UPPER_E, 231, 0]), vec![]);
    assert_eq!(decode_pairs(&[ESC, UPPER_E, ESC, SP, 3, 0]), vec![(SP, vec![3])]);
}

#[test]
fn pairs_argument_is_scanned_again() {
    // The pair that ends a command is handed back, so an `ESC` that served as
    // an argument starts a command of its own.
    assert_eq!(
        decode_pairs(&[ESC, MINUS, ESC, SP, 9, 0]),
        vec![(MINUS, vec![ESC]), (SP, vec![9])]
    );
}

#[test]
fn pairs_prototype_stays_untouched() {
    let buffer = [ESC, MINUS, 1, ESC, 7, 7, ESC, SP, 2, 0];
    let mut interpreter = ByteInterpreter::new(&buffer);
    interpreter.add_interpretable(ESC, Box::new(EscHandler::new()));
    let once = interpreter.interpret_buffer().unwrap();
    let again = interpreter.interpret_buffer().unwrap();
    assert_eq!(once.len(), 2);
    assert_eq!(again.len(), 2);
    assert_eq!((once[0].subcommand(), once[0].args()), (MINUS, &[1u8][..]));
    assert_eq!((once[1].subcommand(), once[1].args()), (SP, &[2u8][..]));
    assert_eq!((again[0].subcommand(), again[0].args()), (MINUS, &[1u8][..]));
    assert_eq!((again[1].subcommand(), again[1].args()), (SP, &[2u8][..]));
}
