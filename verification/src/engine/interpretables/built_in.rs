//! Contains built in interpretables for interpreting OPOS buffers.
//!
//! Both families here have the same shape: the lead-in byte is followed by one
//! subcommand byte out of a fixed set, and that by a fixed number of argument
//! bytes. They differ in their lead-in byte and in their set of subcommands.

use crate::engine::interpretables::{
    consumed, driven, lemma_cut_off_command_is_dropped, lemma_no_lead_in_no_command, remaining,
    scan, Interpretable, InterpretableClone,
};
use crate::interop::opos::{
    ESC, EXCLAMATION, GS, LOWER_B, LOWER_R, LOWER_T, MINUS, OPEN_CURLY, SP, UPPER_B, UPPER_E,
    UPPER_G, UPPER_M, UPPER_R, UPPER_V,
};
use vstd::prelude::*;

verus! {

/// What a machine of a built-in family has accumulated.
pub struct CommandState {
    /// How many argument bytes have been collected.
    pub counted_args: nat,
    /// How many argument bytes the command requires.
    pub arg_count: nat,
    /// The subcommand byte; zero while none is assigned.
    pub subcommand: u8,
    /// The argument bytes collected so far, in the order of their arrival.
    pub args: Seq<u8>,
}

impl CommandState {
    /// The state of a newly made machine: no subcommand, no argument, one
    /// argument required.
    pub open spec fn fresh() -> CommandState {
        CommandState { counted_args: 0, arg_count: 1, subcommand: 0, args: Seq::empty() }
    }

    /// The state of a finished command with the given subcommand and its one
    /// argument byte.
    pub open spec fn finished(subcommand: u8, argument: u8) -> CommandState {
        CommandState { counted_args: 1, arg_count: 1, subcommand, args: seq![argument] }
    }

    /// The invariant of every state that is reached from `fresh`: the count
    /// is the number of collected arguments, never exceeds the required
    /// number, and stays at zero while no subcommand is assigned.
    pub open spec fn well_formed(self) -> bool {
        &&& self.counted_args == self.args.len()
        &&& self.counted_args <= self.arg_count
        &&& self.subcommand == 0 ==> self.counted_args == 0
    }

    /// A command is complete and valid exactly when its subcommand is assigned
    /// and it has collected as many arguments as it requires.
    pub open spec fn is_complete(self) -> bool {
        self.counted_args == self.arg_count && self.subcommand != 0
    }

    /// Whether a machine in this state takes another byte, given whether that
    /// byte is `known` as a subcommand of the family: never once the command
    /// is complete; before that, any byte while arguments are missing, and
    /// a subcommand byte in any case.
    pub open spec fn takes(self, known: bool) -> bool {
        !self.is_complete() && (known || self.counted_args < self.arg_count)
    }

    /// The state after one byte `value` has been consumed, given whether it
    /// is the family's own lead-in byte and whether it is `known` as a
    /// subcommand of the family.
    ///
    /// While no subcommand is assigned, the lead-in byte is ignored, a known
    /// subcommand byte is assigned, and any other byte is dropped. Afterwards
    /// every byte, the lead-in byte included, is appended as an argument
    /// until the required number is reached, and dropped from then on.
    pub open spec fn after(self, value: u8, is_lead_in: bool, known: bool) -> CommandState {
        if self.subcommand == 0 {
            if !is_lead_in && known {
                CommandState { subcommand: value, ..self }
            } else {
                self
            }
        } else if self.counted_args < self.arg_count {
            CommandState {
                counted_args: self.counted_args + 1,
                args: self.args.push(value),
                ..self
            }
        } else {
            self
        }
    }
}

/// The subcommand bytes of the `ESC` family.
pub open spec fn is_esc_subcommand(value: u8) -> bool {
    ||| value == EXCLAMATION
    ||| value == SP
    ||| value == MINUS
    ||| value == UPPER_M
    ||| value == UPPER_G
    ||| value == UPPER_E
    ||| value == UPPER_R
    ||| value == UPPER_V
    ||| value == LOWER_R
    ||| value == LOWER_T
    ||| value == OPEN_CURLY
}

/// The subcommand bytes of the `GS` family.
pub open spec fn is_gs_subcommand(value: u8) -> bool {
    ||| value == EXCLAMATION
    ||| value == UPPER_B
    ||| value == LOWER_B
}

/// Interpreter for `ESC` Character commands.
/// For more information, click
/// [here](https://download4.epson.biz/sec_pubs/pos/reference_en/escpos/esc_space.html).
#[derive(Clone, Debug)]
pub struct EscInterpreter {
    counted_args: usize,
    arg_count: usize,
    subcommand: u8,
    args: Vec<u8>,
}

impl View for EscInterpreter {
    type V = CommandState;

    closed spec fn view(&self) -> CommandState {
        CommandState {
            counted_args: self.counted_args as nat,
            arg_count: self.arg_count as nat,
            subcommand: self.subcommand,
            args: self.args@,
        }
    }
}

impl EscInterpreter {
    /// Constructs a new `EscInterpreter`.
    pub fn new() -> (interpreter: Self)
        ensures
            interpreter@ == CommandState::fresh(),
            interpreter@.well_formed(),
    {
        Self { counted_args: 0, arg_count: 1, args: Vec::new(), subcommand: 0u8 }
    }

    /// Checks to see if the supplied subcommand matches the list of valid
    /// subcommands defined for `ESC` character commands.
    pub fn is_valid_subcommand(&self, value: &u8) -> (known: bool)
        ensures
            known == is_esc_subcommand(*value),
    {
        matches!(
            *value,
            EXCLAMATION | SP | MINUS | UPPER_M | UPPER_G | UPPER_E | UPPER_R | UPPER_V | LOWER_R
                | LOWER_T | OPEN_CURLY
        )
    }

    /// The subcommand byte of this command; zero while none is assigned.
    pub fn subcommand(&self) -> (subcommand: u8)
        ensures
            subcommand == self@.subcommand,
    {
        self.subcommand
    }

    /// The argument bytes collected so far.
    pub fn args(&self) -> (args: &[u8])
        ensures
            args@ == self@.args,
    {
        self.args.as_slice()
    }
}

impl InterpretableClone for EscInterpreter {
    fn clone_box(&self) -> (copy: Box<Self>) {
        Box::new(
            Self {
                counted_args: self.counted_args,
                arg_count: self.arg_count,
                subcommand: self.subcommand,
                args: self.args.clone(),
            },
        )
    }
}

impl Interpretable for EscInterpreter {
    open spec fn should_continue_spec(state: CommandState, value: u8) -> bool {
        state.takes(is_esc_subcommand(value))
    }

    open spec fn assign_spec(state: CommandState, value: u8) -> CommandState {
        state.after(value, value == ESC, is_esc_subcommand(value))
    }

    open spec fn is_valid_spec(state: CommandState) -> bool {
        state.is_complete()
    }

    fn should_continue(&self, value: &u8) -> (willing: bool) {
        if self.is_valid() {
            // The command has all it needs: whatever follows starts anew.
            false
        } else if self.is_valid_subcommand(value) {
            true
        } else {
            self.counted_args < self.arg_count
        }
    }

    fn assign(&mut self, value: u8)
        ensures
            old(self)@.well_formed() ==> final(self)@.well_formed(),
    {
        if self.subcommand == 0u8 {
            // An `ESC` that arrives before the subcommand only repeats the
            // beginning of the command. Once the subcommand is assigned, `ESC`
            // is handled as a normal value.
            if value != ESC && self.is_valid_subcommand(&value) {
                self.subcommand = value;
            }
        } else if self.counted_args < self.arg_count {
            self.args.push(value);
            self.counted_args += 1;
        }
    }

    fn is_valid(&self) -> (valid: bool) {
        // If we've filled our arguments, and our subcommand is not zero, then
        // this interpretable has finished.
        (self.counted_args == self.arg_count) && (self.subcommand != 0u8)
    }
}

/// Interpreter for `GS` Character commands.
/// For more information, click
/// [here](https://download4.epson.biz/sec_pubs/pos/reference_en/escpos/gs_exclamation.html).
#[derive(Clone, Debug)]
pub struct GsInterpreter {
    counted_args: usize,
    arg_count: usize,
    subcommand: u8,
    args: Vec<u8>,
}

impl View for GsInterpreter {
    type V = CommandState;

    closed spec fn view(&self) -> CommandState {
        CommandState {
            counted_args: self.counted_args as nat,
            arg_count: self.arg_count as nat,
            subcommand: self.subcommand,
            args: self.args@,
        }
    }
}

impl GsInterpreter {
    /// Constructs a new `GsInterpreter`.
    pub fn new() -> (interpreter: Self)
        ensures
            interpreter@ == CommandState::fresh(),
            interpreter@.well_formed(),
    {
        Self { counted_args: 0, arg_count: 1, args: Vec::new(), subcommand: 0u8 }
    }

    /// Checks to see if the supplied subcommand matches the list of valid
    /// subcommands defined for `GS` character commands.
    pub fn is_valid_subcommand(&self, value: &u8) -> (known: bool)
        ensures
            known == is_gs_subcommand(*value),
    {
        matches!(*value, EXCLAMATION | UPPER_B | LOWER_B)
    }

    /// The subcommand byte of this command; zero while none is assigned.
    pub fn subcommand(&self) -> (subcommand: u8)
        ensures
            subcommand == self@.subcommand,
    {
        self.subcommand
    }

    /// The argument bytes collected so far.
    pub fn args(&self) -> (args: &[u8])
        ensures
            args@ == self@.args,
    {
        self.args.as_slice()
    }
}

impl InterpretableClone for GsInterpreter {
    fn clone_box(&self) -> (copy: Box<Self>) {
        Box::new(
            Self {
                counted_args: self.counted_args,
                arg_count: self.arg_count,
                subcommand: self.subcommand,
                args: self.args.clone(),
            },
        )
    }
}

impl Interpretable for GsInterpreter {
    open spec fn should_continue_spec(state: CommandState, value: u8) -> bool {
        state.takes(is_gs_subcommand(value))
    }

    open spec fn assign_spec(state: CommandState, value: u8) -> CommandState {
        state.after(value, value == GS, is_gs_subcommand(value))
    }

    open spec fn is_valid_spec(state: CommandState) -> bool {
        state.is_complete()
    }

    fn should_continue(&self, value: &u8) -> (willing: bool) {
        if self.is_valid() {
            // The command has all it needs: whatever follows starts anew.
            false
        } else if self.is_valid_subcommand(value) {
            true
        } else {
            self.counted_args < self.arg_count
        }
    }

    fn assign(&mut self, value: u8)
        ensures
            old(self)@.well_formed() ==> final(self)@.well_formed(),
    {
        if self.subcommand == 0u8 {
            // The lead-in byte is only special before the subcommand.
            if value != GS && self.is_valid_subcommand(&value) {
                self.subcommand = value;
            }
        } else if self.counted_args < self.arg_count {
            self.args.push(value);
            self.counted_args += 1;
        }
    }

    fn is_valid(&self) -> (valid: bool) {
        // If we've filled our arguments, and our subcommand is not zero, then
        // this interpretable has finished.
        (self.counted_args == self.arg_count) && (self.subcommand != 0u8)
    }
}

/// One machine of either built-in family, so that a single dispatcher can hold
/// both.
#[derive(Clone, Debug)]
pub enum BuiltInInterpreter {
    /// A machine of the `ESC` family.
    Esc(EscInterpreter),
    /// A machine of the `GS` family.
    Gs(GsInterpreter),
}

/// The state of a `BuiltInInterpreter`: the family and what its machine has
/// accumulated.
pub enum BuiltInState {
    /// A command of the `ESC` family.
    Esc(CommandState),
    /// A command of the `GS` family.
    Gs(CommandState),
}

impl BuiltInState {
    /// What the machine has accumulated, whatever its family.
    pub open spec fn command(self) -> CommandState {
        match self {
            BuiltInState::Esc(state) => state,
            BuiltInState::Gs(state) => state,
        }
    }

    /// Whether `value` is a subcommand byte of this state's family.
    pub open spec fn knows(self, value: u8) -> bool {
        match self {
            BuiltInState::Esc(_) => is_esc_subcommand(value),
            BuiltInState::Gs(_) => is_gs_subcommand(value),
        }
    }

    /// The state of the same family that holds `command`.
    pub open spec fn holding(self, command: CommandState) -> BuiltInState {
        match self {
            BuiltInState::Esc(_) => BuiltInState::Esc(command),
            BuiltInState::Gs(_) => BuiltInState::Gs(command),
        }
    }
}

impl View for BuiltInInterpreter {
    type V = BuiltInState;

    open spec fn view(&self) -> BuiltInState {
        match self {
            BuiltInInterpreter::Esc(machine) => BuiltInState::Esc(machine@),
            BuiltInInterpreter::Gs(machine) => BuiltInState::Gs(machine@),
        }
    }
}

impl BuiltInInterpreter {
    /// A new machine of the `ESC` family.
    pub fn esc() -> (interpreter: Self)
        ensures
            interpreter@ == BuiltInState::Esc(CommandState::fresh()),
    {
        BuiltInInterpreter::Esc(EscInterpreter::new())
    }

    /// A new machine of the `GS` family.
    pub fn gs() -> (interpreter: Self)
        ensures
            interpreter@ == BuiltInState::Gs(CommandState::fresh()),
    {
        BuiltInInterpreter::Gs(GsInterpreter::new())
    }

    /// The lead-in byte of this machine's family.
    pub fn lead_in(&self) -> (byte: u8)
        ensures
            byte == (if self@ is Esc { ESC } else { GS }),
    {
        match self {
            BuiltInInterpreter::Esc(_) => ESC,
            BuiltInInterpreter::Gs(_) => GS,
        }
    }

    /// The subcommand byte of this command; zero while none is assigned.
    pub fn subcommand(&self) -> (subcommand: u8)
        ensures
            subcommand == self@.command().subcommand,
    {
        match self {
            BuiltInInterpreter::Esc(machine) => machine.subcommand(),
            BuiltInInterpreter::Gs(machine) => machine.subcommand(),
        }
    }

    /// The argument bytes collected so far.
    pub fn args(&self) -> (args: &[u8])
        ensures
            args@ == self@.command().args,
    {
        match self {
            BuiltInInterpreter::Esc(machine) => machine.args(),
            BuiltInInterpreter::Gs(machine) => machine.args(),
        }
    }
}

impl InterpretableClone for BuiltInInterpreter {
    fn clone_box(&self) -> (copy: Box<Self>) {
        match self {
            BuiltInInterpreter::Esc(machine) => Box::new(
                BuiltInInterpreter::Esc(*machine.clone_box()),
            ),
            BuiltInInterpreter::Gs(machine) => Box::new(
                BuiltInInterpreter::Gs(*machine.clone_box()),
            ),
        }
    }
}

impl Interpretable for BuiltInInterpreter {
    open spec fn should_continue_spec(state: BuiltInState, value: u8) -> bool {
        match state {
            BuiltInState::Esc(command) => EscInterpreter::should_continue_spec(command, value),
            BuiltInState::Gs(command) => GsInterpreter::should_continue_spec(command, value),
        }
    }

    open spec fn assign_spec(state: BuiltInState, value: u8) -> BuiltInState {
        match state {
            BuiltInState::Esc(command) => BuiltInState::Esc(
                EscInterpreter::assign_spec(command, value),
            ),
            BuiltInState::Gs(command) => BuiltInState::Gs(
                GsInterpreter::assign_spec(command, value),
            ),
        }
    }

    open spec fn is_valid_spec(state: BuiltInState) -> bool {
        match state {
            BuiltInState::Esc(command) => EscInterpreter::is_valid_spec(command),
            BuiltInState::Gs(command) => GsInterpreter::is_valid_spec(command),
        }
    }

    fn should_continue(&self, value: &u8) -> (willing: bool) {
        match self {
            BuiltInInterpreter::Esc(machine) => machine.should_continue(value),
            BuiltInInterpreter::Gs(machine) => machine.should_continue(value),
        }
    }

    fn assign(&mut self, value: u8)
        ensures
            old(self)@.command().well_formed() ==> final(self)@.command().well_formed(),
    {
        match self {
            BuiltInInterpreter::Esc(machine) => machine.assign(value),
            BuiltInInterpreter::Gs(machine) => machine.assign(value),
        }
    }

    fn is_valid(&self) -> (valid: bool) {
        match self {
            BuiltInInterpreter::Esc(machine) => machine.is_valid(),
            BuiltInInterpreter::Gs(machine) => machine.is_valid(),
        }
    }
}

/// Consuming a byte keeps a state well-formed, whatever the byte and the
/// family.
pub proof fn lemma_after_keeps_well_formed(
    state: CommandState,
    value: u8,
    is_lead_in: bool,
    known: bool,
)
    requires
        state.well_formed(),
        known ==> value != 0,
    ensures
        state.after(value, is_lead_in, known).well_formed(),
        state.after(value, is_lead_in, known).arg_count == state.arg_count,
{
}

/// A lead-in byte at `pos` whose prototype is a new machine, followed by a
/// subcommand byte of its family, an argument byte and at least one more
/// byte, yields that command with exactly that argument, and the scan goes on
/// right behind the argument.
pub proof fn lemma_command_is_found(
    buffer: Seq<u8>,
    pos: int,
    prototypes: Map<u8, BuiltInState>,
)
    requires
        0 <= pos,
        pos + 3 < buffer.len(),
        prototypes.contains_key(buffer[pos]),
        prototypes[buffer[pos]].command() == CommandState::fresh(),
        prototypes[buffer[pos]].knows(buffer[pos + 1]),
    ensures
        consumed::<BuiltInInterpreter>(buffer, pos + 1, prototypes[buffer[pos]]) == 2,
        scan::<BuiltInInterpreter>(buffer, pos, prototypes) == seq![
            prototypes[buffer[pos]].holding(
                CommandState::finished(buffer[pos + 1], buffer[pos + 2]),
            ),
        ] + scan::<BuiltInInterpreter>(buffer, pos + 3, prototypes),
{
    let start = prototypes[buffer[pos]];
    let chosen = BuiltInInterpreter::assign_spec(start, buffer[pos + 1]);
    let filled = BuiltInInterpreter::assign_spec(chosen, buffer[pos + 2]);
    let finished = CommandState::finished(buffer[pos + 1], buffer[pos + 2]);
    assert(BuiltInInterpreter::should_continue_spec(start, buffer[pos + 1]));
    assert(chosen.command().subcommand == buffer[pos + 1]);
    assert(BuiltInInterpreter::should_continue_spec(chosen, buffer[pos + 2]));
    assert(filled.command().args =~= finished.args);
    assert(filled == start.holding(finished));
    assert(!BuiltInInterpreter::should_continue_spec(filled, buffer[pos + 3]));
    assert(consumed::<BuiltInInterpreter>(buffer, pos + 3, filled) == 0);
    assert(consumed::<BuiltInInterpreter>(buffer, pos + 2, chosen) == 1);
    assert(driven::<BuiltInInterpreter>(buffer, pos + 3, filled) == filled);
    assert(driven::<BuiltInInterpreter>(buffer, pos + 2, chosen) == filled);
    assert(driven::<BuiltInInterpreter>(buffer, pos + 1, start) == filled);
    assert(BuiltInInterpreter::is_valid_spec(filled));
}

/// One command followed by bytes of which none is a registered lead-in: the
/// pass finds exactly that command.
pub proof fn lemma_single_command(buffer: Seq<u8>, pos: int, prototypes: Map<u8, BuiltInState>)
    requires
        0 <= pos,
        pos + 3 < buffer.len(),
        prototypes.contains_key(buffer[pos]),
        prototypes[buffer[pos]].command() == CommandState::fresh(),
        prototypes[buffer[pos]].knows(buffer[pos + 1]),
        forall|i: int|
            pos + 3 <= i < buffer.len() ==> !prototypes.contains_key(#[trigger] buffer[i]),
    ensures
        scan::<BuiltInInterpreter>(buffer, pos, prototypes) == seq![
            prototypes[buffer[pos]].holding(
                CommandState::finished(buffer[pos + 1], buffer[pos + 2]),
            ),
        ],
{
    lemma_command_is_found(buffer, pos, prototypes);
    lemma_no_lead_in_no_command::<BuiltInInterpreter>(buffer, pos + 3, prototypes);
}

/// Two commands in a row, of the same family or of two, followed by at least
/// one more byte: the pass finds the first, then the second, each with its
/// own argument byte, and goes on right behind the second.
pub proof fn lemma_two_commands_in_order(
    buffer: Seq<u8>,
    pos: int,
    prototypes: Map<u8, BuiltInState>,
)
    requires
        0 <= pos,
        pos + 6 < buffer.len(),
        prototypes.contains_key(buffer[pos]),
        prototypes[buffer[pos]].command() == CommandState::fresh(),
        prototypes[buffer[pos]].knows(buffer[pos + 1]),
        prototypes.contains_key(buffer[pos + 3]),
        prototypes[buffer[pos + 3]].command() == CommandState::fresh(),
        prototypes[buffer[pos + 3]].knows(buffer[pos + 4]),
    ensures
        scan::<BuiltInInterpreter>(buffer, pos, prototypes) == seq![
            prototypes[buffer[pos]].holding(
                CommandState::finished(buffer[pos + 1], buffer[pos + 2]),
            ),
            prototypes[buffer[pos + 3]].holding(
                CommandState::finished(buffer[pos + 4], buffer[pos + 5]),
            ),
        ] + scan::<BuiltInInterpreter>(buffer, pos + 6, prototypes),
{
    lemma_command_is_found(buffer, pos, prototypes);
    lemma_command_is_found(buffer, pos + 3, prototypes);
    let first = prototypes[buffer[pos]].holding(
        CommandState::finished(buffer[pos + 1], buffer[pos + 2]),
    );
    let second = prototypes[buffer[pos + 3]].holding(
        CommandState::finished(buffer[pos + 4], buffer[pos + 5]),
    );
    let rest = scan::<BuiltInInterpreter>(buffer, pos + 6, prototypes);
    assert(seq![first] + (seq![second] + rest) =~= seq![first, second] + rest);
}

/// A machine that requires an argument takes every byte until its command is
/// complete: if it is not complete where it stops, it stopped at the end of
/// the buffer.
pub proof fn lemma_unfinished_machine_reaches_end(buffer: Seq<u8>, pos: int, state: BuiltInState)
    requires
        0 <= pos <= buffer.len(),
        state.command().well_formed(),
        state.command().arg_count > 0,
        !driven::<BuiltInInterpreter>(buffer, pos, state).command().is_complete(),
    ensures
        pos + consumed::<BuiltInInterpreter>(buffer, pos, state) == buffer.len(),
    decreases buffer.len() - pos,
{
    if pos < buffer.len() {
        let value = buffer[pos];
        assert(BuiltInInterpreter::should_continue_spec(state, value));
        let next = BuiltInInterpreter::assign_spec(state, value);
        lemma_after_keeps_well_formed(
            state.command(),
            value,
            state is Esc && value == ESC || state is Gs && value == GS,
            state.knows(value),
        );
        lemma_unfinished_machine_reaches_end(buffer, pos + 1, next);
    }
}

/// A command whose subcommand or argument is still missing when the buffer
/// ends yields nothing: if the machine started by the lead-in byte at `pos`
/// ends up incomplete, no command is found from `pos` on.
pub proof fn lemma_unfinished_command_yields_nothing(
    buffer: Seq<u8>,
    pos: int,
    prototypes: Map<u8, BuiltInState>,
)
    requires
        0 <= pos < buffer.len(),
        prototypes.contains_key(buffer[pos]),
        prototypes[buffer[pos]].command() == CommandState::fresh(),
        !driven::<BuiltInInterpreter>(
            buffer,
            pos + 1,
            prototypes[buffer[pos]],
        ).command().is_complete(),
    ensures
        scan::<BuiltInInterpreter>(buffer, pos, prototypes) == Seq::<BuiltInState>::empty(),
{
    lemma_unfinished_machine_reaches_end(buffer, pos + 1, prototypes[buffer[pos]]);
    lemma_cut_off_command_is_dropped::<BuiltInInterpreter>(buffer, pos, prototypes);
}

/// A lead-in byte with fewer than two bytes behind it lacks its argument, and
/// yields nothing.
pub proof fn lemma_missing_argument_yields_nothing(
    buffer: Seq<u8>,
    pos: int,
    prototypes: Map<u8, BuiltInState>,
)
    requires
        0 <= pos < buffer.len(),
        buffer.len() < pos + 3,
        prototypes.contains_key(buffer[pos]),
        prototypes[buffer[pos]].command() == CommandState::fresh(),
    ensures
        scan::<BuiltInInterpreter>(buffer, pos, prototypes) == Seq::<BuiltInState>::empty(),
{
    let start = prototypes[buffer[pos]];
    if pos + 1 < buffer.len() {
        let next = BuiltInInterpreter::assign_spec(start, buffer[pos + 1]);
        assert(BuiltInInterpreter::should_continue_spec(start, buffer[pos + 1]));
        assert(driven::<BuiltInInterpreter>(buffer, pos + 2, next) == next);
        assert(driven::<BuiltInInterpreter>(buffer, pos + 1, start) == next);
    } else {
        assert(driven::<BuiltInInterpreter>(buffer, pos + 1, start) == start);
    }
    lemma_unfinished_command_yields_nothing(buffer, pos, prototypes);
}

/// A machine that starts well-formed stays so, keeps its family and keeps
/// the number of arguments that it requires, whatever bytes it takes.
pub proof fn lemma_driven_keeps_well_formed(buffer: Seq<u8>, pos: int, state: BuiltInState)
    requires
        state.command().well_formed(),
    ensures
        driven::<BuiltInInterpreter>(buffer, pos, state).command().well_formed(),
        driven::<BuiltInInterpreter>(buffer, pos, state).command().arg_count
            == state.command().arg_count,
        driven::<BuiltInInterpreter>(buffer, pos, state) is Esc <==> state is Esc,
    decreases buffer.len() - pos,
{
    if 0 <= pos < buffer.len() && BuiltInInterpreter::should_continue_spec(state, buffer[pos]) {
        let value = buffer[pos];
        lemma_after_keeps_well_formed(
            state.command(),
            value,
            state is Esc && value == ESC || state is Gs && value == GS,
            state.knows(value),
        );
        lemma_driven_keeps_well_formed(
            buffer,
            pos + 1,
            BuiltInInterpreter::assign_spec(state, value),
        );
    }
}

/// With well-formed prototypes, every command that a pass hands out has a
/// subcommand and holds exactly as many argument bytes as it requires.
pub proof fn lemma_found_commands_hold_their_arguments(
    buffer: Seq<u8>,
    pos: int,
    prototypes: Map<u8, BuiltInState>,
)
    requires
        forall|key: u8| #[trigger]
            prototypes.contains_key(key) ==> prototypes[key].command().well_formed(),
    ensures
        forall|i: int|
            0 <= i < scan::<BuiltInInterpreter>(buffer, pos, prototypes).len() ==> {
                let found = (#[trigger] scan::<BuiltInInterpreter>(
                    buffer,
                    pos,
                    prototypes,
                )[i]).command();
                &&& found.subcommand != 0
                &&& found.args.len() == found.arg_count
            },
    decreases remaining(buffer, pos),
{
    let all = scan::<BuiltInInterpreter>(buffer, pos, prototypes);
    if 0 <= pos < buffer.len() {
        if prototypes.contains_key(buffer[pos]) {
            let start = prototypes[buffer[pos]];
            let stop = pos + 1 + consumed::<BuiltInInterpreter>(buffer, pos + 1, start);
            let found = driven::<BuiltInInterpreter>(buffer, pos + 1, start);
            let rest = scan::<BuiltInInterpreter>(buffer, stop, prototypes);
            lemma_driven_keeps_well_formed(buffer, pos + 1, start);
            lemma_found_commands_hold_their_arguments(buffer, stop, prototypes);
            if stop < buffer.len() && BuiltInInterpreter::is_valid_spec(found) {
                assert(all == seq![found] + rest);
                assert forall|i: int| 0 <= i < all.len() implies {
                    let one = (#[trigger] all[i]).command();
                    one.subcommand != 0 && one.args.len() == one.arg_count
                } by {
                    if i > 0 {
                        assert(all[i] == rest[i - 1]);
                    }
                }
            } else {
                assert(all == rest);
            }
        } else {
            lemma_found_commands_hold_their_arguments(buffer, pos + 1, prototypes);
            assert(all == scan::<BuiltInInterpreter>(buffer, pos + 1, prototypes));
        }
    } else {
        assert(all.len() == 0);
    }
}

} // verus!
