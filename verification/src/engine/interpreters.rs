//! A second way to drive command families: the machine is handed each byte
//! together with the byte behind it, and says after the fact whether the
//! pair was relevant. A pair that it turns down is given back to the scan.
//!
//! The protocol follows Epson's command reference, located
//! [here](https://download4.epson.biz/sec_pubs/pos/reference_en/escpos/).

pub use crate::engine::interpretables::InterpretableClone;
use crate::engine::interpretables::{
    lemma_lead_in_bytes_are_ordered, remaining, states, DispatcherView, InterpretError,
};
use crate::interop::opos::{ESC, EXCLAMATION, MINUS, SP};
use std::collections::BTreeMap;
use vstd::prelude::*;

verus! {

/// A way to turn a decoded command into some other value. How a command is
/// rendered is left to the consumer of the decoded commands.
pub trait Interpret {
    /// Converts a decoded command into some interpreted value.
    fn interpret<T, I: Interpretable>(value: Box<I>) -> T;
}

/// A trait describing a struct that may be interpreted (or *"deserialized"*)
/// from a set of bytes that have been passed in from a buffer. Its view is
/// what it has stored of the bytes assigned to it; the three spec functions
/// are the family's rules over that state.
pub trait Interpretable: InterpretableClone {
    /// Whether `current`, followed by `next`, is relevant to a machine in `state`.
    spec fn is_relevant(state: Self::V, current: u8, next: Option<u8>) -> bool;

    /// The state that follows `state` once the machine has been handed
    /// `current` and `next`.
    spec fn assigned(state: Self::V, current: u8, next: Option<u8>) -> Self::V;

    /// Whether `state` is a valid and complete command.
    spec fn is_valid_spec(state: Self::V) -> bool;

    /// Accepts the current byte and the byte behind it. `next` is `None` only
    /// if `current` is the last byte of the buffer.
    ///
    /// Used for assigning passed in bytes. Returns whether the provided data
    /// was relevant. The moment the data is not relevant, the dispatcher stops
    /// interpreting for the command.
    fn assign_bytes(&mut self, current: u8, next: Option<u8>) -> (relevant: bool)
        ensures
            relevant == Self::is_relevant(old(self)@, current, next),
            final(self)@ == Self::assigned(old(self)@, current, next),
    ;

    /// Returns whether the current `Interpretable` is valid and complete. One
    /// that is not is never handed out by the dispatcher.
    fn is_valid(&self) -> (valid: bool)
        ensures
            valid == Self::is_valid_spec(self@),
    ;
}

/// How the run of one machine over a buffer ends.
pub struct Outcome<S> {
    /// The number of bytes that stay with the machine: a pair that it turns
    /// down is not counted.
    pub consumed: nat,
    /// The state of the machine after its last call.
    pub state: S,
    /// Whether the machine turned a pair down; if not, the buffer ran out.
    pub declined: bool,
}

/// The byte behind position `pos` of `buffer`, if there is one.
pub open spec fn byte_behind(buffer: Seq<u8>, pos: int) -> Option<u8> {
    if pos + 1 < buffer.len() {
        Some(buffer[pos + 1])
    } else {
        None
    }
}

/// The run of a machine that starts in `state` at position `pos` of `buffer`.
/// It is handed the byte at `pos` and the byte behind it; while it finds them
/// relevant it goes on behind the two.
pub open spec fn run<T: Interpretable>(buffer: Seq<u8>, pos: int, state: T::V) -> Outcome<T::V>
    decreases remaining(buffer, pos),
{
    if pos < 0 || pos >= buffer.len() {
        Outcome { consumed: 0, state, declined: false }
    } else {
        let current = buffer[pos];
        let next = byte_behind(buffer, pos);
        let after = T::assigned(state, current, next);
        if T::is_relevant(state, current, next) {
            let taken: nat = if next is Some { 2 } else { 1 };
            let later = run::<T>(buffer, pos + taken, after);
            Outcome { consumed: taken + later.consumed, ..later }
        } else {
            Outcome { consumed: 0, state: after, declined: true }
        }
    }
}

/// The commands found in `buffer` from position `pos` on, in the order in
/// which they start.
///
/// A byte that is no registered lead-in is skipped. A lead-in byte starts a
/// machine in its prototype's state on the byte behind it. When the machine
/// turns a pair down, its state is a result if it is valid, and the scan goes
/// on at the first byte of that pair. A machine that finds everything
/// relevant up to the end of the buffer yields nothing.
pub open spec fn scan_pairs<T: Interpretable>(
    buffer: Seq<u8>,
    pos: int,
    prototypes: Map<u8, T::V>,
) -> Seq<T::V>
    decreases remaining(buffer, pos),
{
    if pos < 0 || pos >= buffer.len() {
        Seq::empty()
    } else if prototypes.contains_key(buffer[pos]) {
        let outcome = run::<T>(buffer, pos + 1, prototypes[buffer[pos]]);
        let rest = scan_pairs::<T>(buffer, pos + 1 + outcome.consumed, prototypes);
        if outcome.declined && T::is_valid_spec(outcome.state) {
            seq![outcome.state] + rest
        } else {
            rest
        }
    } else {
        scan_pairs::<T>(buffer, pos + 1, prototypes)
    }
}

/// A machine never keeps more bytes than the buffer holds behind `pos`.
pub proof fn lemma_run_stays_in_buffer<T: Interpretable>(buffer: Seq<u8>, pos: int, state: T::V)
    requires
        0 <= pos <= buffer.len(),
    ensures
        pos + run::<T>(buffer, pos, state).consumed <= buffer.len(),
        !run::<T>(buffer, pos, state).declined ==> pos + run::<T>(buffer, pos, state).consumed
            == buffer.len(),
    decreases buffer.len() - pos,
{
    if pos < buffer.len() {
        let current = buffer[pos];
        let next = byte_behind(buffer, pos);
        if T::is_relevant(state, current, next) {
            let taken: nat = if next is Some { 2 } else { 1 };
            lemma_run_stays_in_buffer::<T>(buffer, pos + taken, T::assigned(state, current, next));
        }
    }
}

/// A buffer that holds no registered lead-in byte from `pos` on holds no
/// command from there on.
pub proof fn lemma_no_lead_in_no_pairs<T: Interpretable>(
    buffer: Seq<u8>,
    pos: int,
    prototypes: Map<u8, T::V>,
)
    requires
        forall|i: int|
            pos <= i < buffer.len() && 0 <= i ==> !prototypes.contains_key(#[trigger] buffer[i]),
    ensures
        scan_pairs::<T>(buffer, pos, prototypes) == Seq::<T::V>::empty(),
    decreases remaining(buffer, pos),
{
    if 0 <= pos < buffer.len() {
        assert(!prototypes.contains_key(buffer[pos]));
        lemma_no_lead_in_no_pairs::<T>(buffer, pos + 1, prototypes);
    }
}

/// Whatever the buffer holds, every command that a pass hands out is valid
/// by the rules of its family.
pub proof fn lemma_only_valid_pairs<T: Interpretable>(
    buffer: Seq<u8>,
    pos: int,
    prototypes: Map<u8, T::V>,
)
    ensures
        forall|i: int|
            0 <= i < scan_pairs::<T>(buffer, pos, prototypes).len() ==> T::is_valid_spec(
                #[trigger] scan_pairs::<T>(buffer, pos, prototypes)[i],
            ),
    decreases remaining(buffer, pos),
{
    let all = scan_pairs::<T>(buffer, pos, prototypes);
    if 0 <= pos < buffer.len() {
        if prototypes.contains_key(buffer[pos]) {
            let outcome = run::<T>(buffer, pos + 1, prototypes[buffer[pos]]);
            let rest = scan_pairs::<T>(buffer, pos + 1 + outcome.consumed, prototypes);
            lemma_only_valid_pairs::<T>(buffer, pos + 1 + outcome.consumed, prototypes);
            if outcome.declined && T::is_valid_spec(outcome.state) {
                assert(all == seq![outcome.state] + rest);
                assert forall|i: int| 0 <= i < all.len() implies T::is_valid_spec(
                    #[trigger] all[i],
                ) by {
                    if i > 0 {
                        assert(all[i] == rest[i - 1]);
                    }
                }
            } else {
                assert(all == rest);
            }
        } else {
            lemma_only_valid_pairs::<T>(buffer, pos + 1, prototypes);
            assert(all == scan_pairs::<T>(buffer, pos + 1, prototypes));
        }
    } else {
        assert(all.len() == 0);
    }
}

/// Struct which wraps a buffer, and allows for decoding the data into
/// instruction sets.
pub struct ByteInterpreter<'a, T: Interpretable> {
    buffer: &'a [u8],
    interpretables: BTreeMap<u8, Box<T>>,
}

impl<'a, T: Interpretable> View for ByteInterpreter<'a, T> {
    type V = DispatcherView<T::V>;

    closed spec fn view(&self) -> DispatcherView<T::V> {
        DispatcherView {
            buffer: self.buffer@,
            prototypes: Map::new(
                |key: u8| self.interpretables@.contains_key(key),
                |key: u8| self.interpretables@[key]@,
            ),
        }
    }
}

impl<'a, T: Interpretable> ByteInterpreter<'a, T> {
    /// Makes a dispatcher for `buffer`, with no family registered.
    pub fn new(buffer: &'a [u8]) -> (interpreter: Self)
        ensures
            interpreter@.buffer == buffer@,
            interpreter@.prototypes == Map::<u8, T::V>::empty(),
    {
        let interpreter = Self { buffer, interpretables: BTreeMap::<u8, Box<T>>::new() };
        assert(interpreter@.prototypes =~= Map::<u8, T::V>::empty());
        interpreter
    }

    /// Adds an `Interpretable` into the internal `interpretables` map. The
    /// provided `key` is the lead-in byte of its family (these are provided as
    /// `const`s in `interop::opos`). A prototype that was registered under the
    /// same byte before is replaced.
    pub fn add_interpretable(&mut self, key: u8, interpretable: Box<T>)
        ensures
            final(self)@.buffer == old(self)@.buffer,
            final(self)@.prototypes == old(self)@.prototypes.insert(key, interpretable@),
    {
        proof {
            lemma_lead_in_bytes_are_ordered();
        }
        self.interpretables.insert(key, interpretable);
        assert(self@.prototypes =~= old(self)@.prototypes.insert(key, interpretable@));
    }

    /// Interprets the internally stored buffer in one pass from left to right,
    /// and returns the valid commands in the order in which they start. Each
    /// occurrence of a lead-in byte gets a copy of its prototype, so the pass
    /// leaves the dispatcher as it was. It never fails.
    pub fn interpret_buffer(&mut self) -> (interpretations: Result<Vec<Box<T>>, InterpretError>)
        ensures
            *final(self) == *old(self),
            interpretations is Ok,
            states(interpretations.unwrap()@) == scan_pairs::<T>(
                old(self)@.buffer,
                0,
                old(self)@.prototypes,
            ),
    {
        proof {
            lemma_lead_in_bytes_are_ordered();
        }
        let buffer = self.buffer;
        let mut interpretations: Vec<Box<T>> = Vec::new();
        let mut cursor: usize = 0;
        while cursor < buffer.len()
            invariant
                *self == *old(self),
                buffer@ == self@.buffer,
                cursor <= buffer.len(),
                scan_pairs::<T>(buffer@, 0, self@.prototypes) == states(interpretations@)
                    + scan_pairs::<T>(buffer@, cursor as int, self@.prototypes),
            decreases buffer.len() - cursor,
        {
            let lead: usize = cursor;
            let byte = buffer[cursor];
            cursor += 1;
            if let Some(prototype) = self.interpretables.get(&byte) {
                let mut interpretable = prototype.clone_box();
                let ghost whole = run::<T>(buffer@, lead + 1, prototype@);
                let mut declined = false;
                loop
                    invariant_except_break
                        !declined,
                        cursor + run::<T>(buffer@, cursor as int, interpretable@).consumed == lead
                            + 1 + whole.consumed,
                        run::<T>(buffer@, cursor as int, interpretable@).state == whole.state,
                        run::<T>(buffer@, cursor as int, interpretable@).declined
                            == whole.declined,
                    invariant
                        lead < cursor <= buffer.len(),
                    ensures
                        lead < cursor <= buffer.len(),
                        cursor == lead + 1 + whole.consumed,
                        interpretable@ == whole.state,
                        declined == whole.declined,
                    decreases buffer.len() - cursor,
                {
                    let saved: usize = cursor;
                    if cursor >= buffer.len() {
                        break ;
                    }
                    let current = buffer[cursor];
                    cursor += 1;
                    let next = if cursor < buffer.len() {
                        let behind = buffer[cursor];
                        cursor += 1;
                        Some(behind)
                    } else {
                        None
                    };
                    assert(next == byte_behind(buffer@, saved as int));
                    if !interpretable.assign_bytes(current, next) {
                        // The pair was not for this machine: hand it back.
                        cursor = saved;
                        declined = true;
                        break ;
                    }
                }
                if declined && interpretable.is_valid() {
                    assert(states(interpretations@.push(interpretable)) =~= states(
                        interpretations@,
                    ) + seq![interpretable@]);
                    interpretations.push(interpretable);
                }
            }
        }
        Ok(interpretations)
    }
}

/// What an `EscHandler` has stored.
pub struct HandlerState {
    /// The subcommand byte; zero while none is assigned.
    pub subcommand: u8,
    /// The argument bytes stored so far.
    pub args: Seq<u8>,
}

/// The subcommand bytes that an `EscHandler` knows.
pub open spec fn is_handler_subcommand(value: u8) -> bool {
    value == EXCLAMATION || value == SP || value == MINUS
}

/// Handler for `ESC` commands with one argument byte.
#[derive(Clone, Debug)]
pub struct EscHandler {
    subcommand: u8,
    args: Vec<u8>,
}

impl View for EscHandler {
    type V = HandlerState;

    closed spec fn view(&self) -> HandlerState {
        HandlerState { subcommand: self.subcommand, args: self.args@ }
    }
}

impl EscHandler {
    /// Constructs a new `EscHandler`, with no subcommand and no argument.
    pub fn new() -> (handler: Self)
        ensures
            handler@ == (HandlerState { subcommand: 0, args: Seq::empty() }),
    {
        Self { args: Vec::new(), subcommand: 0u8 }
    }

    /// The subcommand byte of this command; zero while none is assigned.
    pub fn subcommand(&self) -> (subcommand: u8)
        ensures
            subcommand == self@.subcommand,
    {
        self.subcommand
    }

    /// The argument bytes stored so far.
    pub fn args(&self) -> (args: &[u8])
        ensures
            args@ == self@.args,
    {
        self.args.as_slice()
    }
}

impl InterpretableClone for EscHandler {
    fn clone_box(&self) -> (copy: Box<Self>) {
        Box::new(Self { subcommand: self.subcommand, args: self.args.clone() })
    }
}

impl Interpretable for EscHandler {
    /// An `ESC` is relevant at the end of the buffer or in front of a known
    /// subcommand byte. A known subcommand byte is relevant only at the end of
    /// the buffer: with a byte behind it the command is stored, and the
    /// handler is done. Nothing else is relevant.
    open spec fn is_relevant(state: HandlerState, current: u8, next: Option<u8>) -> bool {
        if current == ESC {
            next is None || is_handler_subcommand(next.unwrap())
        } else if is_handler_subcommand(current) {
            next is None
        } else {
            false
        }
    }

    /// A known subcommand byte with a byte behind it is stored with that byte
    /// as its argument; anything else leaves the state as it is.
    open spec fn assigned(state: HandlerState, current: u8, next: Option<u8>) -> HandlerState {
        if current != ESC && is_handler_subcommand(current) && next is Some {
            HandlerState { subcommand: current, args: state.args.push(next.unwrap()) }
        } else {
            state
        }
    }

    /// A command is valid exactly when its subcommand is assigned and it
    /// holds the one argument byte that it requires.
    open spec fn is_valid_spec(state: HandlerState) -> bool {
        state.subcommand != 0 && state.args.len() == 1
    }

    fn assign_bytes(&mut self, current: u8, next: Option<u8>) -> (relevant: bool) {
        if current == ESC {
            let next = match next {
                None => {
                    return true;
                },
                Some(sub) => sub,
            };

            if matches!(next, EXCLAMATION | SP | MINUS) {
                true
            } else {
                false
            }
        } else if matches!(current, EXCLAMATION | SP | MINUS) {
            let next = match next {
                None => {
                    return true;
                },
                Some(sub) => sub,
            };

            self.subcommand = current;
            self.args.push(next);
            false
        } else {
            false
        }
    }

    fn is_valid(&self) -> (valid: bool) {
        self.subcommand != 0u8 && self.args.len() == 1
    }
}

/// A lead-in byte at `pos` whose prototype is a new handler, followed by a
/// subcommand byte that the handler knows and by an argument byte, yields
/// that command with exactly that argument. The pair is handed back, so the
/// scan goes on at the subcommand byte.
pub proof fn lemma_handler_finds_command(
    buffer: Seq<u8>,
    pos: int,
    prototypes: Map<u8, HandlerState>,
)
    requires
        0 <= pos,
        pos + 2 < buffer.len(),
        prototypes.contains_key(buffer[pos]),
        prototypes[buffer[pos]] == (HandlerState { subcommand: 0, args: Seq::empty() }),
        is_handler_subcommand(buffer[pos + 1]),
    ensures
        scan_pairs::<EscHandler>(buffer, pos, prototypes) == seq![
            HandlerState { subcommand: buffer[pos + 1], args: seq![buffer[pos + 2]] },
        ] + scan_pairs::<EscHandler>(buffer, pos + 1, prototypes),
{
    let start = prototypes[buffer[pos]];
    let outcome = run::<EscHandler>(buffer, pos + 1, start);
    assert(byte_behind(buffer, pos + 1) == Some(buffer[pos + 2]));
    assert(!EscHandler::is_relevant(start, buffer[pos + 1], Some(buffer[pos + 2])));
    assert(outcome.declined && outcome.consumed == 0);
    assert(outcome.state.args =~= seq![buffer[pos + 2]]);
}

/// A lead-in byte whose subcommand byte is the last byte of the buffer, or
/// which is itself the last byte, yields nothing.
pub proof fn lemma_handler_needs_argument(
    buffer: Seq<u8>,
    pos: int,
    prototypes: Map<u8, HandlerState>,
)
    requires
        0 <= pos < buffer.len(),
        buffer.len() <= pos + 2,
        prototypes.contains_key(buffer[pos]),
        prototypes[buffer[pos]] == (HandlerState { subcommand: 0, args: Seq::empty() }),
    ensures
        scan_pairs::<EscHandler>(buffer, pos, prototypes) == Seq::<HandlerState>::empty(),
{
    let start = prototypes[buffer[pos]];
    let outcome = run::<EscHandler>(buffer, pos + 1, start);
    if pos + 1 < buffer.len() {
        assert(byte_behind(buffer, pos + 1) is None);
        assert(EscHandler::assigned(start, buffer[pos + 1], None) == start);
        if EscHandler::is_relevant(start, buffer[pos + 1], None) {
            assert(run::<EscHandler>(buffer, pos + 2, start).state == start);
            assert(!run::<EscHandler>(buffer, pos + 2, start).declined);
            assert(scan_pairs::<EscHandler>(buffer, pos + 2, prototypes).len() == 0);
        } else {
            assert(outcome.state == start);
            lemma_no_command_in_last_byte(buffer, prototypes);
        }
    } else {
        assert(scan_pairs::<EscHandler>(buffer, pos + 1, prototypes).len() == 0);
    }
}

/// The last byte of a buffer never starts a command: no pair is left that a
/// handler could turn down.
proof fn lemma_no_command_in_last_byte(buffer: Seq<u8>, prototypes: Map<u8, HandlerState>)
    requires
        buffer.len() > 0,
    ensures
        scan_pairs::<EscHandler>(buffer, buffer.len() - 1, prototypes)
            == Seq::<HandlerState>::empty(),
{
    let last = buffer.len() - 1;
    if prototypes.contains_key(buffer[last]) {
        let outcome = run::<EscHandler>(buffer, last + 1, prototypes[buffer[last]]);
        assert(!outcome.declined);
        assert(scan_pairs::<EscHandler>(buffer, last + 1, prototypes).len() == 0);
    } else {
        assert(scan_pairs::<EscHandler>(buffer, last + 1, prototypes).len() == 0);
    }
}

} // verus!
