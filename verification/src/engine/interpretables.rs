//! Command families as incremental state machines, and the dispatcher that
//! scans a buffer with them.
//!
//! The protocol follows Epson's command reference, located
//! [here](https://download4.epson.biz/sec_pubs/pos/reference_en/escpos/).

pub mod built_in;

use std::collections::BTreeMap;
use vstd::prelude::*;

verus! {

/// A trait used on `Interpretable`s as a way to extract readable data from
/// them, or to execute the command in some other way. How a command is
/// rendered is left to the consumer of the decoded commands.
pub trait Interpret: Interpretable {
    /// Converts `self` into some interpreted value, consuming `self`.
    fn interpret<T>(self) -> T;
}

/// Independent duplication of a command state machine: the dispatcher keeps
/// each registered prototype untouched and drives a copy per occurrence.
pub trait InterpretableClone: View + Sized {
    /// Returns a boxed copy whose state equals that of `self`.
    fn clone_box(&self) -> (copy: Box<Self>)
        ensures
            copy@ == self@,
    ;
}

/// A command family: a state machine that is fed the bytes which follow its
/// lead-in byte, one at a time. Its view is the state that it has accumulated;
/// the three spec functions are the family's rules over that state, and the
/// executable methods are held to them.
pub trait Interpretable: InterpretableClone {
    /// Whether a machine in `state` is willing to take `value` as its next byte.
    spec fn should_continue_spec(state: Self::V, value: u8) -> bool;

    /// The state that follows `state` once `value` has been consumed.
    spec fn assign_spec(state: Self::V, value: u8) -> Self::V;

    /// Whether `state` is a complete and valid command.
    spec fn is_valid_spec(state: Self::V) -> bool;

    /// Returns a boolean stating whether the `Interpretable` should continue
    /// claiming bytes when given `value`. The byte is only looked at, not consumed.
    fn should_continue(&self, value: &u8) -> (willing: bool)
        ensures
            willing == Self::should_continue_spec(self@, *value),
    ;

    /// Consumes exactly one byte.
    fn assign(&mut self, value: u8)
        ensures
            final(self)@ == Self::assign_spec(old(self)@, value),
    ;

    /// Returns whether the current `Interpretable` is complete and valid. One
    /// that is not is never handed out by the dispatcher.
    fn is_valid(&self) -> (valid: bool)
        ensures
            valid == Self::is_valid_spec(self@),
    ;
}

/// The number of bytes, from position `pos` of `buffer` on, that a machine in
/// `state` takes before it declines a byte or the buffer ends.
pub open spec fn consumed<T: Interpretable>(buffer: Seq<u8>, pos: int, state: T::V) -> nat
    decreases buffer.len() - pos,
{
    if 0 <= pos < buffer.len() && T::should_continue_spec(state, buffer[pos]) {
        1 + consumed::<T>(buffer, pos + 1, T::assign_spec(state, buffer[pos]))
    } else {
        0
    }
}

/// The state of a machine that started in `state` at position `pos` of
/// `buffer`, once it has taken its `consumed` bytes.
pub open spec fn driven<T: Interpretable>(buffer: Seq<u8>, pos: int, state: T::V) -> T::V
    decreases buffer.len() - pos,
{
    if 0 <= pos < buffer.len() && T::should_continue_spec(state, buffer[pos]) {
        driven::<T>(buffer, pos + 1, T::assign_spec(state, buffer[pos]))
    } else {
        state
    }
}

/// The number of bytes of `buffer` that lie at position `pos` or behind it.
pub open spec fn remaining(buffer: Seq<u8>, pos: int) -> nat {
    if pos <= buffer.len() {
        (buffer.len() - pos) as nat
    } else {
        0
    }
}

/// The commands found in `buffer` from position `pos` on, in the order in
/// which they start.
///
/// A byte that is no registered lead-in is skipped. A lead-in byte starts a
/// machine in its prototype's state on the byte behind it. The machine's state
/// is a result if it is complete and valid at the byte that it declines; the
/// scan goes on at that very byte. A machine that has declined no byte when
/// the buffer ends yields nothing, whatever it holds.
pub open spec fn scan<T: Interpretable>(
    buffer: Seq<u8>,
    pos: int,
    prototypes: Map<u8, T::V>,
) -> Seq<T::V>
    decreases remaining(buffer, pos),
{
    if pos < 0 || pos >= buffer.len() {
        Seq::empty()
    } else if prototypes.contains_key(buffer[pos]) {
        let start = prototypes[buffer[pos]];
        let stop = pos + 1 + consumed::<T>(buffer, pos + 1, start);
        let found = driven::<T>(buffer, pos + 1, start);
        let rest = scan::<T>(buffer, stop, prototypes);
        if stop < buffer.len() && T::is_valid_spec(found) {
            seq![found] + rest
        } else {
            rest
        }
    } else {
        scan::<T>(buffer, pos + 1, prototypes)
    }
}

/// A machine never takes more bytes than the buffer holds behind `pos`.
pub proof fn lemma_consumed_stays_in_buffer<T: Interpretable>(
    buffer: Seq<u8>,
    pos: int,
    state: T::V,
)
    requires
        0 <= pos <= buffer.len(),
    ensures
        pos + consumed::<T>(buffer, pos, state) <= buffer.len(),
    decreases buffer.len() - pos,
{
    if pos < buffer.len() && T::should_continue_spec(state, buffer[pos]) {
        lemma_consumed_stays_in_buffer::<T>(buffer, pos + 1, T::assign_spec(state, buffer[pos]));
    }
}

/// A machine stops exactly at the first byte that it declines: if it stops
/// before the end of the buffer, the state that it has reached declines the
/// byte at which it stopped.
pub proof fn lemma_machine_stops_at_declined_byte<T: Interpretable>(
    buffer: Seq<u8>,
    pos: int,
    state: T::V,
)
    requires
        0 <= pos <= buffer.len(),
    ensures
        pos + consumed::<T>(buffer, pos, state) < buffer.len() ==> !T::should_continue_spec(
            driven::<T>(buffer, pos, state),
            buffer[pos + consumed::<T>(buffer, pos, state)],
        ),
    decreases buffer.len() - pos,
{
    if pos < buffer.len() && T::should_continue_spec(state, buffer[pos]) {
        lemma_machine_stops_at_declined_byte::<T>(
            buffer,
            pos + 1,
            T::assign_spec(state, buffer[pos]),
        );
    }
}

/// Bytes in front of the first registered lead-in byte are skipped: if no
/// byte from `pos` up to `upto` is a registered lead-in, the scan from `pos`
/// finds what the scan from `upto` finds.
pub proof fn lemma_leading_bytes_are_skipped<T: Interpretable>(
    buffer: Seq<u8>,
    pos: int,
    upto: int,
    prototypes: Map<u8, T::V>,
)
    requires
        0 <= pos <= upto <= buffer.len(),
        forall|i: int| pos <= i < upto ==> !prototypes.contains_key(#[trigger] buffer[i]),
    ensures
        scan::<T>(buffer, pos, prototypes) == scan::<T>(buffer, upto, prototypes),
    decreases upto - pos,
{
    if pos < upto {
        assert(!prototypes.contains_key(buffer[pos]));
        lemma_leading_bytes_are_skipped::<T>(buffer, pos + 1, upto, prototypes);
    }
}

/// A machine that is handed the tail of a buffer behaves as it does at that
/// place in the whole buffer: it takes as many bytes and reaches the same
/// state.
pub proof fn lemma_machine_reads_tail_alike<T: Interpretable>(
    buffer: Seq<u8>,
    from: int,
    pos: int,
    state: T::V,
)
    requires
        0 <= from <= buffer.len(),
        0 <= pos,
    ensures
        consumed::<T>(buffer.skip(from), pos, state) == consumed::<T>(buffer, from + pos, state),
        driven::<T>(buffer.skip(from), pos, state) == driven::<T>(buffer, from + pos, state),
    decreases remaining(buffer, from + pos),
{
    let tail = buffer.skip(from);
    if pos < tail.len() {
        assert(tail[pos] == buffer[from + pos]);
        if T::should_continue_spec(state, tail[pos]) {
            lemma_machine_reads_tail_alike::<T>(
                buffer,
                from,
                pos + 1,
                T::assign_spec(state, tail[pos]),
            );
        }
    }
}

/// A pass over the tail of a buffer finds what the scan of the whole buffer
/// finds from the place where the tail begins: nothing in front of a position
/// bears on what is found behind it.
pub proof fn lemma_scan_of_tail<T: Interpretable>(
    buffer: Seq<u8>,
    from: int,
    pos: int,
    prototypes: Map<u8, T::V>,
)
    requires
        0 <= from <= buffer.len(),
        0 <= pos,
    ensures
        scan::<T>(buffer.skip(from), pos, prototypes) == scan::<T>(
            buffer,
            from + pos,
            prototypes,
        ),
    decreases remaining(buffer, from + pos),
{
    let tail = buffer.skip(from);
    if pos < tail.len() {
        assert(tail[pos] == buffer[from + pos]);
        if prototypes.contains_key(tail[pos]) {
            let start = prototypes[tail[pos]];
            lemma_machine_reads_tail_alike::<T>(buffer, from, pos + 1, start);
            let taken = consumed::<T>(tail, pos + 1, start);
            lemma_scan_of_tail::<T>(buffer, from, pos + 1 + taken, prototypes);
        } else {
            lemma_scan_of_tail::<T>(buffer, from, pos + 1, prototypes);
        }
    }
}

/// A buffer that holds no registered lead-in byte from `pos` on holds no
/// command from there on. With `pos` at zero: a buffer without any registered
/// lead-in byte is interpreted as the empty sequence.
pub proof fn lemma_no_lead_in_no_command<T: Interpretable>(
    buffer: Seq<u8>,
    pos: int,
    prototypes: Map<u8, T::V>,
)
    requires
        forall|i: int|
            pos <= i < buffer.len() && 0 <= i ==> !prototypes.contains_key(#[trigger] buffer[i]),
    ensures
        scan::<T>(buffer, pos, prototypes) == Seq::<T::V>::empty(),
    decreases remaining(buffer, pos),
{
    if 0 <= pos < buffer.len() {
        assert(!prototypes.contains_key(buffer[pos]));
        lemma_no_lead_in_no_command::<T>(buffer, pos + 1, prototypes);
    }
}

/// Whatever the buffer holds, every command that a pass hands out is complete
/// and valid by the rules of its family.
pub proof fn lemma_only_valid_commands<T: Interpretable>(
    buffer: Seq<u8>,
    pos: int,
    prototypes: Map<u8, T::V>,
)
    ensures
        forall|i: int|
            0 <= i < scan::<T>(buffer, pos, prototypes).len() ==> T::is_valid_spec(
                #[trigger] scan::<T>(buffer, pos, prototypes)[i],
            ),
    decreases remaining(buffer, pos),
{
    if 0 <= pos < buffer.len() {
        if prototypes.contains_key(buffer[pos]) {
            let start = prototypes[buffer[pos]];
            let stop = pos + 1 + consumed::<T>(buffer, pos + 1, start);
            let found = driven::<T>(buffer, pos + 1, start);
            let rest = scan::<T>(buffer, stop, prototypes);
            let all = scan::<T>(buffer, pos, prototypes);
            lemma_only_valid_commands::<T>(buffer, stop, prototypes);
            if stop < buffer.len() && T::is_valid_spec(found) {
                assert(all == seq![found] + rest);
                assert forall|i: int| 0 <= i < all.len() implies T::is_valid_spec(
                    #[trigger] all[i],
                ) by {
                    if i > 0 {
                        assert(all[i] == rest[i - 1]);
                    }
                }
            } else {
                assert(all == rest);
            }
        } else {
            lemma_only_valid_commands::<T>(buffer, pos + 1, prototypes);
            assert(scan::<T>(buffer, pos, prototypes) == scan::<T>(buffer, pos + 1, prototypes));
        }
    } else {
        assert(scan::<T>(buffer, pos, prototypes).len() == 0);
    }
}

/// A machine that has declined no byte when the buffer ends is dropped: if
/// the machine started by the lead-in byte at `pos` takes every byte behind
/// it, no command is found from `pos` on.
pub proof fn lemma_cut_off_command_is_dropped<T: Interpretable>(
    buffer: Seq<u8>,
    pos: int,
    prototypes: Map<u8, T::V>,
)
    requires
        0 <= pos < buffer.len(),
        prototypes.contains_key(buffer[pos]),
        pos + 1 + consumed::<T>(buffer, pos + 1, prototypes[buffer[pos]]) == buffer.len(),
    ensures
        scan::<T>(buffer, pos, prototypes) == Seq::<T::V>::empty(),
{
    assert(scan::<T>(buffer, buffer.len() as int, prototypes) == Seq::<T::V>::empty());
}

/// A pass is a function of the buffer and of the registered prototypes alone:
/// two dispatchers that were made for equal buffers and registered alike
/// find the same commands, and so does a second pass of the same dispatcher.
pub proof fn lemma_interpretation_repeats<T: Interpretable>(
    first: DispatcherView<T::V>,
    second: DispatcherView<T::V>,
)
    requires
        first.buffer =~= second.buffer,
        first.prototypes =~= second.prototypes,
    ensures
        scan::<T>(first.buffer, 0, first.prototypes) == scan::<T>(
            second.buffer,
            0,
            second.prototypes,
        ),
{
}

/// Bytes are totally ordered, which is what the registry asks of its keys.
pub(crate) proof fn lemma_lead_in_bytes_are_ordered()
    ensures
        vstd::laws_cmp::obeys_cmp::<u8>(),
{
    broadcast use vstd::laws_cmp::group_laws_cmp;

}

/// The states of the machines in `found`, in the same order.
pub open spec fn states<T: InterpretableClone>(found: Seq<Box<T>>) -> Seq<T::V> {
    Seq::new(found.len(), |i: int| found[i]@)
}

/// What a dispatcher holds: the buffer it was made for, and the state of the
/// prototype registered under each lead-in byte.
pub struct DispatcherView<S> {
    pub buffer: Seq<u8>,
    pub prototypes: Map<u8, S>,
}

/// The only way in which a pass over a buffer could fail. A buffer that is
/// already in memory can always be read, so no pass reports it.
#[derive(Debug)]
pub enum InterpretError {
    /// The buffer could not be read.
    UnreadableBuffer,
}

/// Struct which wraps a buffer, and allows for decoding the data into
/// instruction sets.
pub struct ByteInterpreter<'a, T: Interpretable> {
    buffer: &'a [u8],
    interpretables: BTreeMap<u8, Box<T>>,
}

impl<'a, T: Interpretable> View for ByteInterpreter<'a, T> {
    type V = DispatcherView<T::V>;

    closed spec fn view(&self) -> DispatcherView<T::V> {
        DispatcherView {
            buffer: self.buffer@,
            prototypes: Map::new(
                |key: u8| self.interpretables@.contains_key(key),
                |key: u8| self.interpretables@[key]@,
            ),
        }
    }
}

impl<'a, T: Interpretable> ByteInterpreter<'a, T> {
    /// Makes a dispatcher for `buffer`, with no family registered.
    pub fn new(buffer: &'a [u8]) -> (interpreter: Self)
        ensures
            interpreter@.buffer == buffer@,
            interpreter@.prototypes == Map::<u8, T::V>::empty(),
    {
        let interpreter = Self { buffer, interpretables: BTreeMap::<u8, Box<T>>::new() };
        assert(interpreter@.prototypes =~= Map::<u8, T::V>::empty());
        interpreter
    }

    /// Adds an `Interpretable` into the internal `interpretables` map. The
    /// provided `key` is the lead-in byte of its family (these are provided as
    /// `const`s in `interop::opos`). A prototype that was registered under the
    /// same byte before is replaced.
    pub fn add_interpretable(&mut self, key: u8, interpretable: Box<T>)
        ensures
            final(self)@.buffer == old(self)@.buffer,
            final(self)@.prototypes == old(self)@.prototypes.insert(key, interpretable@),
    {
        proof {
            lemma_lead_in_bytes_are_ordered();
        }
        self.interpretables.insert(key, interpretable);
        assert(self@.prototypes =~= old(self)@.prototypes.insert(key, interpretable@));
    }

    /// Interprets the internally stored buffer in one pass from left to right,
    /// and returns the complete commands in the order in which they start. The
    /// pass never fails, and leaves the dispatcher as it was.
    pub fn interpret_buffer(&mut self) -> (interpretations: Result<Vec<Box<T>>, InterpretError>)
        ensures
            *final(self) == *old(self),
            interpretations is Ok,
            states(interpretations.unwrap()@) == scan::<T>(
                old(self)@.buffer,
                0,
                old(self)@.prototypes,
            ),
    {
        proof {
            lemma_lead_in_bytes_are_ordered();
        }
        let buffer = self.buffer;
        let mut interpretations: Vec<Box<T>> = Vec::new();
        let mut cursor: usize = 0;
        while cursor < buffer.len()
            invariant
                *self == *old(self),
                buffer@ == self@.buffer,
                cursor <= buffer.len(),
                scan::<T>(buffer@, 0, self@.prototypes) == states(interpretations@) + scan::<T>(
                    buffer@,
                    cursor as int,
                    self@.prototypes,
                ),
            decreases buffer.len() - cursor,
        {
            let lead: usize = cursor;
            let byte = buffer[cursor];
            cursor += 1;
            if let Some(prototype) = self.interpretables.get(&byte) {
                let mut interpretable = prototype.clone_box();
                loop
                    invariant
                        lead < cursor <= buffer.len(),
                        cursor + consumed::<T>(buffer@, cursor as int, interpretable@) == lead + 1
                            + consumed::<T>(buffer@, lead + 1, prototype@),
                        driven::<T>(buffer@, cursor as int, interpretable@) == driven::<T>(
                            buffer@,
                            lead + 1,
                            prototype@,
                        ),
                    ensures
                        lead < cursor <= buffer.len(),
                        cursor == lead + 1 + consumed::<T>(buffer@, lead + 1, prototype@),
                        interpretable@ == driven::<T>(buffer@, lead + 1, prototype@),
                    decreases buffer.len() - cursor,
                {
                    if cursor >= buffer.len() {
                        break ;
                    }
                    if !interpretable.should_continue(&buffer[cursor]) {
                        break ;
                    }
                    let current = buffer[cursor];
                    cursor += 1;
                    interpretable.assign(current);
                }
                if cursor < buffer.len() && interpretable.is_valid() {
                    assert(states(interpretations@.push(interpretable)) =~= states(
                        interpretations@,
                    ) + seq![interpretable@]);
                    interpretations.push(interpretable);
                }
            }
        }
        Ok(interpretations)
    }
}

} // verus!
