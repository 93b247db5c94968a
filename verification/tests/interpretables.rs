use escpos_decoder::engine::interpretables::built_in::{
    BuiltInInterpreter, EscInterpreter, GsInterpreter,
};
use escpos_decoder::engine::interpretables::{ByteInterpreter, Interpretable, InterpretableClone};
use escpos_decoder::interop::opos::{
    ESC, EXCLAMATION, GS, LOWER_B, LOWER_R, LOWER_T, MINUS, OPEN_CURLY, SP, UPPER_B, UPPER_E,
    UPPER_G, UPPER_M, UPPER_R, UPPER_V,
};

/// Runs a dispatcher with both built-in families over `buffer` and returns,
/// for each command found, whether it is of the `ESC` family, its subcommand
/// and its arguments.
fn decode(buffer: &[u8]) -> Vec<(bool, u8, Vec<u8>)> {
    let mut interpreter = ByteInterpreter::new(buffer);
    interpreter.add_interpretable(ESC, Box::new(BuiltInInterpreter::esc()));
    interpreter.add_interpretable(GS, Box::new(BuiltInInterpreter::gs()));
    let result = interpreter.interpret_buffer().unwrap();
    result
        .iter()
        .map(|found| (found.lead_in() == ESC, found.subcommand(), found.args().to_vec()))
        .collect()
}

#[test]
fn test_interpretables() {
    let buffer = [
        ESC, SP, 44, GS, 98, 132, 77, 89, 0,
        ESC, EXCLAMATION, 32, 0,
        ESC, MINUS, 255, 0,
        ESC, UPPER_E, 231, 0,
        ESC, UPPER_G, 90, 0,
        ESC, UPPER_M, 81, 0,
        ESC, UPPER_R, 1, 0,
        ESC, UPPER_V, 12, 0,
        ESC, LOWER_R, 56, 0,
        ESC, LOWER_T, 77, 0,
        ESC, OPEN_CURLY, 178, 0,
    ];
    let mut interpreter = ByteInterpreter::new(&buffer);

    let esc_handler = EscInterpreter::new();
    let gs_handler = GsInterpreter::new();

    interpreter.add_interpretable(ESC, Box::new(BuiltInInterpreter::Esc(esc_handler)));
    interpreter.add_interpretable(GS, Box::new(BuiltInInterpreter::Gs(gs_handler)));

    let result = interpreter.interpret_buffer().unwrap();
    println!("{:?}", result);

    let found: Vec<(u8, u8, Vec<u8>)> = result
        .iter()
        .map(|command| (command.lead_in(), command.subcommand(), command.args().to_vec()))
        .collect();
    assert_eq!(
        found,
        vec![
            (ESC, SP, vec![44]),
            (GS, LOWER_B, vec![132]),
            (ESC, EXCLAMATION, vec![32]),
            (ESC, MINUS, vec![255]),
            (ESC, UPPER_E, vec![231]),
            (ESC, UPPER_G, vec![90]),
            (ESC, UPPER_M, vec![81]),
            (ESC, UPPER_R, vec![1]),
            (ESC, UPPER_V, vec![12]),
            (ESC, LOWER_R, vec![56]),
            (ESC, LOWER_T, vec![77]),
            (ESC, OPEN_CURLY, vec![178]),
        ]
    );
}

#[test]
fn buffer_without_lead_in_yields_nothing() {
    assert_eq!(decode(&[]), vec![]);
    assert_eq!(decode(&[0, 1, 2, EXCLAMATION, 32, 255, MINUS, 28, 30]), vec![]);
}

#[test]
fn dispatcher_without_families_yields_nothing() {
    let buffer = [ESC, EXCLAMATION, 32, 0, GS, UPPER_B, 1, 0];
    let mut interpreter: ByteInterpreter<BuiltInInterpreter> = ByteInterpreter::new(&buffer);
    assert_eq!(interpreter.interpret_buffer().unwrap().len(), 0);
}

#[test]
fn unregistered_family_is_skipped() {
    let buffer = [GS, UPPER_B, 1, 0, ESC, EXCLAMATION, 32, 0];
    let mut interpreter = ByteInterpreter::new(&buffer);
    interpreter.add_interpretable(ESC, Box::new(BuiltInInterpreter::esc()));
    let result = interpreter.interpret_buffer().unwrap();
    assert_eq!(result.len(), 1);
    assert_eq!(result[0].lead_in(), ESC);
    assert_eq!(result[0].subcommand(), EXCLAMATION);
    assert_eq!(result[0].args(), &[32]);
}

#[test]
fn one_command_then_skipped_byte() {
    assert_eq!(decode(&[ESC, EXCLAMATION, 32, 0]), vec![(true, 33, vec![32])]);
}

#[test]
fn one_command_then_unrelated_bytes() {
    assert_eq!(
        decode(&[ESC, UPPER_M, 7, 1, 2, 3, UPPER_M, 9, 200]),
        vec![(true, UPPER_M, vec![7])]
    );
    assert_eq!(decode(&[5, 6, GS, UPPER_B, 1, 9, 9]), vec![(false, UPPER_B, vec![1])]);
}

#[test]
fn two_commands_in_order() {
    assert_eq!(
        decode(&[ESC, MINUS, 255, 0, ESC, UPPER_E, 231, 0]),
        vec![(true, MINUS, vec![255]), (true, UPPER_E, vec![231])]
    );
}

#[test]
fn missing_argument_yields_nothing() {
    assert_eq!(decode(&[GS, EXCLAMATION]), vec![]);
    assert_eq!(decode(&[ESC]), vec![]);
    assert_eq!(decode(&[ESC, MINUS]), vec![]);
}

#[test]
fn command_cut_off_after_valid_ones_is_dropped() {
    assert_eq!(
        decode(&[ESC, SP, 1, GS, LOWER_B, 2, 0, ESC, EXCLAMATION]),
        vec![(true, SP, vec![1]), (false, LOWER_B, vec![2])]
    );
}

#[test]
fn command_needs_a_byte_behind_it() {
    // A machine is only handed out at the byte that it declines.
    assert_eq!(decode(&[ESC, EXCLAMATION, 32]), vec![]);
    assert_eq!(decode(&[ESC, EXCLAMATION, 32, 7]), vec![(true, EXCLAMATION, vec![32])]);
}

#[test]
fn consecutive_commands_of_different_families() {
    assert_eq!(
        decode(&[ESC, SP, 44, GS, LOWER_B, 132, ESC, UPPER_V, 12, 0]),
        vec![(true, SP, vec![44]), (false, LOWER_B, vec![132]), (true, UPPER_V, vec![12])]
    );
}

#[test]
fn scan_resumes_at_the_declined_byte() {
    // The byte behind the argument is a lead-in itself and starts the next command.
    assert_eq!(
        decode(&[GS, EXCLAMATION, 17, GS, UPPER_B, 1, 0]),
        vec![(false, EXCLAMATION, vec![17]), (false, UPPER_B, vec![1])]
    );
}

#[test]
fn complete_command_declines_a_subcommand_byte() {
    assert_eq!(
        decode(&[ESC, EXCLAMATION, 32, EXCLAMATION]),
        vec![(true, EXCLAMATION, vec![32])]
    );
}

#[test]
fn lead_in_before_subcommand_is_ignored() {
    assert_eq!(decode(&[ESC, ESC, EXCLAMATION, 5, 0]), vec![(true, EXCLAMATION, vec![5])]);
    assert_eq!(decode(&[GS, GS, GS, UPPER_B, 6, 0]), vec![(false, UPPER_B, vec![6])]);
}

#[test]
fn lead_in_after_subcommand_is_an_argument() {
    assert_eq!(decode(&[ESC, MINUS, ESC, 0]), vec![(true, MINUS, vec![ESC])]);
    assert_eq!(decode(&[GS, LOWER_B, GS, 0]), vec![(false, LOWER_B, vec![GS])]);
    // The argument byte is not read again as the start of a command.
    assert_eq!(
        decode(&[ESC, MINUS, ESC, EXCLAMATION, 9, 0]),
        vec![(true, MINUS, vec![ESC])]
    );
}

#[test]
fn unknown_subcommand_byte_is_dropped() {
    assert_eq!(decode(&[ESC, 120, EXCLAMATION, 7, 0]), vec![(true, EXCLAMATION, vec![7])]);
    // `B` is a subcommand of `GS` only: the `ESC` machine drops it.
    assert_eq!(decode(&[ESC, UPPER_B, 1, 2, 3]), vec![]);
    // A foreign lead-in is swallowed by a machine that still waits for its subcommand.
    assert_eq!(decode(&[ESC, GS, EXCLAMATION, 5, 0]), vec![(true, EXCLAMATION, vec![5])]);
}

#[test]
fn same_buffer_gives_same_result() {
    let buffer = [1, ESC, SP, 44, GS, 98, 132, 77, ESC, 3, GS, EXCLAMATION];
    let first = decode(&buffer);
    let second = decode(&buffer);
    assert_eq!(first, second);
    assert_eq!(first, vec![(true, SP, vec![44]), (false, LOWER_B, vec![132])]);

    let mut interpreter = ByteInterpreter::new(&buffer);
    interpreter.add_interpretable(GS, Box::new(BuiltInInterpreter::gs()));
    interpreter.add_interpretable(ESC, Box::new(BuiltInInterpreter::esc()));
    let once = interpreter.interpret_buffer().unwrap();
    let again = interpreter.interpret_buffer().unwrap();
    assert_eq!(once.len(), 2);
    assert_eq!(again.len(), 2);
    for (left, right) in once.iter().zip(again.iter()) {
        assert_eq!(left.lead_in(), right.lead_in());
        assert_eq!(left.subcommand(), right.subcommand());
        assert_eq!(left.args(), right.args());
    }
}

#[test]
fn registering_again_replaces_the_prototype() {
    let buffer = [ESC, UPPER_B, 4, 0];
    let mut interpreter = ByteInterpreter::new(&buffer);
    interpreter.add_interpretable(ESC, Box::new(BuiltInInterpreter::esc()));
    assert_eq!(interpreter.interpret_buffer().unwrap().len(), 0);
    // A `GS` machine under the `ESC` byte knows `B`.
    interpreter.add_interpretable(ESC, Box::new(BuiltInInterpreter::gs()));
    let result = interpreter.interpret_buffer().unwrap();
    assert_eq!(result.len(), 1);
    assert_eq!(result[0].lead_in(), GS);
    assert_eq!(result[0].subcommand(), UPPER_B);
    assert_eq!(result[0].args(), &[4]);
}

#[test]
fn prototype_with_state_is_the_starting_point() {
    // A prototype that already holds its subcommand takes the next byte as its argument.
    let mut prototype = EscInterpreter::new();
    prototype.assign(MINUS);
    let buffer = [ESC, 9, 0, ESC, 8, 0];
    let mut interpreter = ByteInterpreter::new(&buffer);
    interpreter.add_interpretable(ESC, Box::new(prototype));
    let result = interpreter.interpret_buffer().unwrap();
    assert_eq!(result.len(), 2);
    assert_eq!((result[0].subcommand(), result[0].args()), (MINUS, &[9u8][..]));
    assert_eq!((result[1].subcommand(), result[1].args()), (MINUS, &[8u8][..]));
}

#[test]
fn single_family_dispatcher() {
    let buffer = [GS, UPPER_B, 1, ESC, GS, LOWER_B, 0, GS];
    let mut interpreter = ByteInterpreter::new(&buffer);
    interpreter.add_interpretable(GS, Box::new(GsInterpreter::new()));
    let result = interpreter.interpret_buffer().unwrap();
    assert_eq!(result.len(), 2);
    assert_eq!((result[0].subcommand(), result[0].args()), (UPPER_B, &[1u8][..]));
    assert_eq!((result[1].subcommand(), result[1].args()), (LOWER_B, &[0u8][..]));
}

#[test]
fn esc_subcommands() {
    let machine = EscInterpreter::new();
    let known = [
        EXCLAMATION, SP, MINUS, UPPER_M, UPPER_G, UPPER_E, UPPER_R, UPPER_V, LOWER_R, LOWER_T,
        OPEN_CURLY,
    ];
    for value in 0..=255u8 {
        assert_eq!(machine.is_valid_subcommand(&value), known.contains(&value));
    }
}

#[test]
fn gs_subcommands() {
    let machine = GsInterpreter::new();
    let known = [EXCLAMATION, UPPER_B, LOWER_B];
    for value in 0..=255u8 {
        assert_eq!(machine.is_valid_subcommand(&value), known.contains(&value));
    }
}

#[test]
fn esc_machine_step_by_step() {
    let mut machine = EscInterpreter::new();
    assert_eq!(machine.subcommand(), 0);
    assert_eq!(machine.args(), &[] as &[u8]);
    assert!(!machine.is_valid());
    assert!(machine.should_continue(&ESC));
    assert!(machine.should_continue(&0));

    machine.assign(ESC);
    assert_eq!(machine.subcommand(), 0);
    machine.assign(200);
    assert_eq!(machine.subcommand(), 0);
    assert_eq!(machine.args(), &[] as &[u8]);

    machine.assign(UPPER_G);
    assert_eq!(machine.subcommand(), UPPER_G);
    assert!(!machine.is_valid());
    assert!(machine.should_continue(&0));

    machine.assign(UPPER_E);
    assert_eq!(machine.subcommand(), UPPER_G);
    assert_eq!(machine.args(), &[UPPER_E]);
    assert!(machine.is_valid());
    assert!(!machine.should_continue(&0));
    assert!(!machine.should_continue(&UPPER_E));
    assert!(!machine.should_continue(&ESC));

    machine.assign(5);
    assert_eq!(machine.subcommand(), UPPER_G);
    assert_eq!(machine.args(), &[UPPER_E]);
    assert!(machine.is_valid());
}

#[test]
fn gs_machine_step_by_step() {
    let mut machine = GsInterpreter::new();
    assert!(!machine.is_valid());
    machine.assign(GS);
    machine.assign(SP);
    assert_eq!(machine.subcommand(), 0);
    machine.assign(LOWER_B);
    assert_eq!(machine.subcommand(), LOWER_B);
    assert!(machine.should_continue(&GS));
    machine.assign(GS);
    assert_eq!(machine.args(), &[GS]);
    assert!(machine.is_valid());
    assert!(!machine.should_continue(&EXCLAMATION));
}

#[test]
fn copy_is_independent() {
    let mut template = EscInterpreter::new();
    template.assign(MINUS);
    let mut copy = template.clone_box();
    assert_eq!(copy.subcommand(), MINUS);
    copy.assign(1);
    assert!(copy.is_valid());
    assert!(!template.is_valid());
    assert_eq!(template.args(), &[] as &[u8]);

    let both = BuiltInInterpreter::Gs(GsInterpreter::new());
    let mut second = both.clone_box();
    second.assign(UPPER_B);
    assert_eq!(second.subcommand(), UPPER_B);
    assert_eq!(both.subcommand(), 0);
    assert_eq!(second.lead_in(), GS);
}
