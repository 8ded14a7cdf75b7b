//! What a bus that keeps a record of its transfers shows of the envelope.
//!
//! The contracts of the driver speak of the calls made on the bus and of the
//! state in which each call finds and leaves it. The laws here read those
//! contracts off a bus with a memory: `history` gives, for a state of the
//! bus, the transfers made on it so far, each as the address it went to and
//! the bytes written. The write function adds the transfer it is asked for,
//! whether it then succeeds or fails, and an operation adds the transfers
//! `requested` of it.
//!
//! Each law takes these two facts about the bus as its first premises. The
//! premise after them is the postcondition of `run_selected`, with `before`
//! for the bus on entry and `after` for the bus on return, so a law applies
//! directly after such a call.
use vstd::prelude::*;
use crate::interface::io_result;
use crate::select::{select_byte, DESELECT_ALL};
use crate::Error;

verus! {

/// One transfer on the bus: the address written to, and the bytes.
pub type Transfer = (u8, Seq<u8>);

/// The transfer that connects `channel` of the multiplexer at `address`.
pub open spec fn select_transfer(address: u8, channel: u8) -> Transfer {
    (address, seq![select_byte(channel)])
}

/// The transfer that disconnects every channel of the multiplexer at
/// `address`.
pub open spec fn deselect_transfer(address: u8) -> Transfer {
    (address, seq![DESELECT_ALL])
}

/// An envelope that found the bus as `before`, left it as `after` and
/// returned `r` has added to the record, in this order: the select byte of
/// its channel, what was requested of the operation, and the deselect byte.
/// An envelope that succeeded has added all three. One that failed has added
/// the select byte alone, or the select byte and the operation, or all
/// three: nothing comes before the select byte, and the deselect byte is
/// never there without the operation before it. An envelope that ran never
/// returns `Error::BusBusy`.
pub proof fn lemma_envelope_history<I2C, E, W, F>(
    write: W,
    operation: F,
    history: spec_fn(I2C) -> Seq<Transfer>,
    requested: Seq<Transfer>,
    before: I2C,
    after: I2C,
    address: u8,
    channel: u8,
    r: Result<(), Error<E>>,
)
    where
        W: Fn(&mut I2C, u8, &[u8]) -> Result<(), E>,
        F: FnOnce(&mut I2C) -> Result<(), E>,
    requires
        forall|m: &mut I2C, a: u8, bytes: &[u8], outcome: Result<(), E>|
            #[trigger] call_ensures(write, (m, a, bytes), outcome)
                ==> history(*final(m)) == history(*m).push((a, bytes@)),
        forall|m: &mut I2C, outcome: Result<(), E>|
            #[trigger] call_ensures(operation, (m,), outcome)
                ==> history(*final(m)) == history(*m) + requested,
        (exists|sel: &mut I2C, sel_bytes: &[u8], selected: Result<(), E>|
            *sel == before && sel_bytes@ == seq![select_byte(channel)]
            && #[trigger] call_ensures(write, (sel, address, sel_bytes), selected)
            && match selected {
                Err(e) => r == Err::<(), Error<E>>(Error::Io(e)) && after == *final(sel),
                Ok(()) => exists|run: &mut I2C, ran: Result<(), E>|
                    *run == *final(sel)
                    && #[trigger] call_ensures(operation, (run,), ran)
                    && match ran {
                        Err(e) => r == Err::<(), Error<E>>(Error::Io(e)) && after == *final(run),
                        Ok(()) => exists|des: &mut I2C, des_bytes: &[u8], deselected: Result<(), E>|
                            *des == *final(run) && des_bytes@ == seq![DESELECT_ALL]
                            && #[trigger] call_ensures(write, (des, address, des_bytes), deselected)
                            && r == io_result(deselected) && after == *final(des),
                    },
            }),
    ensures
        r is Ok ==> history(after) == history(before).push(select_transfer(address, channel))
            + requested + seq![deselect_transfer(address)],
        r is Err ==> (history(after) == history(before).push(select_transfer(address, channel))
            || history(after) == history(before).push(select_transfer(address, channel))
                + requested
            || history(after) == history(before).push(select_transfer(address, channel))
                + requested + seq![deselect_transfer(address)]),
        r != Err::<(), Error<E>>(Error::BusBusy),
{
}

/// If the writes to the multiplexer succeed and the operation fails with
/// `fault`, the envelope returns `Error::Io(fault)` and the record ends with
/// what was requested of the operation: no deselect byte follows, the channel
/// stays connected.
pub proof fn lemma_failed_operation_history<I2C, E, W, F>(
    write: W,
    operation: F,
    history: spec_fn(I2C) -> Seq<Transfer>,
    requested: Seq<Transfer>,
    before: I2C,
    after: I2C,
    address: u8,
    channel: u8,
    r: Result<(), Error<E>>,
    fault: E,
)
    where
        W: Fn(&mut I2C, u8, &[u8]) -> Result<(), E>,
        F: FnOnce(&mut I2C) -> Result<(), E>,
    requires
        forall|m: &mut I2C, a: u8, bytes: &[u8], outcome: Result<(), E>|
            #[trigger] call_ensures(write, (m, a, bytes), outcome)
                ==> outcome is Ok && history(*final(m)) == history(*m).push((a, bytes@)),
        forall|m: &mut I2C, outcome: Result<(), E>|
            #[trigger] call_ensures(operation, (m,), outcome)
                ==> outcome == Err::<(), E>(fault) && history(*final(m)) == history(*m) + requested,
        (exists|sel: &mut I2C, sel_bytes: &[u8], selected: Result<(), E>|
            *sel == before && sel_bytes@ == seq![select_byte(channel)]
            && #[trigger] call_ensures(write, (sel, address, sel_bytes), selected)
            && match selected {
                Err(e) => r == Err::<(), Error<E>>(Error::Io(e)) && after == *final(sel),
                Ok(()) => exists|run: &mut I2C, ran: Result<(), E>|
                    *run == *final(sel)
                    && #[trigger] call_ensures(operation, (run,), ran)
                    && match ran {
                        Err(e) => r == Err::<(), Error<E>>(Error::Io(e)) && after == *final(run),
                        Ok(()) => exists|des: &mut I2C, des_bytes: &[u8], deselected: Result<(), E>|
                            *des == *final(run) && des_bytes@ == seq![DESELECT_ALL]
                            && #[trigger] call_ensures(write, (des, address, des_bytes), deselected)
                            && r == io_result(deselected) && after == *final(des),
                    },
            }),
    ensures
        r == Err::<(), Error<E>>(Error::Io(fault)),
        history(after) == history(before).push(select_transfer(address, channel)) + requested,
{
}

/// Two envelopes run one after the other on one bus, both successful: the
/// record holds the first envelope whole and then the second whole. The
/// select and deselect bytes of the two are never interleaved, and each
/// operation stands between the select byte and the deselect byte of its own
/// channel.
pub proof fn lemma_sequential_envelopes<I2C, E, W, F, G>(
    write: W,
    first: F,
    second: G,
    history: spec_fn(I2C) -> Seq<Transfer>,
    first_requested: Seq<Transfer>,
    second_requested: Seq<Transfer>,
    before: I2C,
    between: I2C,
    after: I2C,
    address: u8,
    first_channel: u8,
    second_channel: u8,
    first_result: Result<(), Error<E>>,
    second_result: Result<(), Error<E>>,
)
    where
        W: Fn(&mut I2C, u8, &[u8]) -> Result<(), E>,
        F: FnOnce(&mut I2C) -> Result<(), E>,
        G: FnOnce(&mut I2C) -> Result<(), E>,
    requires
        forall|m: &mut I2C, a: u8, bytes: &[u8], outcome: Result<(), E>|
            #[trigger] call_ensures(write, (m, a, bytes), outcome)
                ==> history(*final(m)) == history(*m).push((a, bytes@)),
        forall|m: &mut I2C, outcome: Result<(), E>|
            #[trigger] call_ensures(first, (m,), outcome)
                ==> history(*final(m)) == history(*m) + first_requested,
        forall|m: &mut I2C, outcome: Result<(), E>|
            #[trigger] call_ensures(second, (m,), outcome)
                ==> history(*final(m)) == history(*m) + second_requested,
        (exists|sel: &mut I2C, sel_bytes: &[u8], selected: Result<(), E>|
            *sel == before && sel_bytes@ == seq![select_byte(first_channel)]
            && #[trigger] call_ensures(write, (sel, address, sel_bytes), selected)
            && match selected {
                Err(e) => first_result == Err::<(), Error<E>>(Error::Io(e))
                    && between == *final(sel),
                Ok(()) => exists|run: &mut I2C, ran: Result<(), E>|
                    *run == *final(sel)
                    && #[trigger] call_ensures(first, (run,), ran)
                    && match ran {
                        Err(e) => first_result == Err::<(), Error<E>>(Error::Io(e))
                            && between == *final(run),
                        Ok(()) => exists|des: &mut I2C, des_bytes: &[u8], deselected: Result<(), E>|
                            *des == *final(run) && des_bytes@ == seq![DESELECT_ALL]
                            && #[trigger] call_ensures(write, (des, address, des_bytes), deselected)
                            && first_result == io_result(deselected) && between == *final(des),
                    },
            }),
        (exists|sel: &mut I2C, sel_bytes: &[u8], selected: Result<(), E>|
            *sel == between && sel_bytes@ == seq![select_byte(second_channel)]
            && #[trigger] call_ensures(write, (sel, address, sel_bytes), selected)
            && match selected {
                Err(e) => second_result == Err::<(), Error<E>>(Error::Io(e))
                    && after == *final(sel),
                Ok(()) => exists|run: &mut I2C, ran: Result<(), E>|
                    *run == *final(sel)
                    && #[trigger] call_ensures(second, (run,), ran)
                    && match ran {
                        Err(e) => second_result == Err::<(), Error<E>>(Error::Io(e))
                            && after == *final(run),
                        Ok(()) => exists|des: &mut I2C, des_bytes: &[u8], deselected: Result<(), E>|
                            *des == *final(run) && des_bytes@ == seq![DESELECT_ALL]
                            && #[trigger] call_ensures(write, (des, address, des_bytes), deselected)
                            && second_result == io_result(deselected) && after == *final(des),
                    },
            }),
        first_result is Ok,
        second_result is Ok,
    ensures
        history(after) == history(before).push(select_transfer(address, first_channel))
            + first_requested + seq![deselect_transfer(address)]
            + seq![select_transfer(address, second_channel)] + second_requested
            + seq![deselect_transfer(address)],
{
    lemma_envelope_history(
        write,
        first,
        history,
        first_requested,
        before,
        between,
        address,
        first_channel,
        first_result,
    );
    lemma_envelope_history(
        write,
        second,
        history,
        second_requested,
        between,
        after,
        address,
        second_channel,
        second_result,
    );
}

} // verus!
