//! The shared interface: the one physical bus behind its lock, and the
//! envelope of select, run and deselect that every transfer goes through.
//!
//! # Reading the contracts
//!
//! The bus is driven through two functions that the caller supplies: `write`,
//! which writes bytes to an address, and the operation to run. A contract
//! says which calls of them were made. `call_ensures(f, args, out)` holds of a
//! call of `f` on `args` that returned `out`. The bus goes into such a call as
//! a mutable borrow `m`: `*m` is the bus as the call found it, `*final(m)` the
//! bus as the call left it. Two calls follow each other directly when the
//! second finds the bus as the first left it.
use vstd::prelude::*;
use spin::mutex::{Mutex, MutexGuard};
use crate::lock::protected;
use crate::select::{select, select_byte, CHANNELS, DESELECT_ALL};
use crate::Error;

verus! {

/// The result of a transfer on the bus, as the multiplexer reports it: a
/// failure of the transport is wrapped in `Error::Io`, unchanged.
pub open spec fn io_result<E>(outcome: Result<(), E>) -> Result<(), Error<E>> {
    match outcome {
        Ok(()) => Ok(()),
        Err(e) => Err(Error::Io(e)),
    }
}

/// Runs `operation` on `bus` with `channel` connected: writes the select
/// byte of `channel` to the multiplexer at `address`, runs `operation`, and
/// writes the deselect byte.
///
/// The three calls are made in this order, each on the bus as the one before
/// left it and only if the one before succeeded. The first failure ends the
/// envelope: its error is returned as `Error::Io` and the bus stays as the
/// failed call left it. So a failing operation is not followed by the
/// deselect write, and its channel stays connected. If all three succeed the
/// result is `Ok`.
pub fn run_selected<I2C, E, W, F>(
    bus: &mut I2C,
    address: u8,
    channel: u8,
    write: W,
    operation: F,
) -> (r: Result<(), Error<E>>)
    where
        W: Fn(&mut I2C, u8, &[u8]) -> Result<(), E>,
        F: FnOnce(&mut I2C) -> Result<(), E>,
    requires
        channel < CHANNELS,
        forall|m: &mut I2C, bytes: &[u8]|
            bytes@ == seq![select_byte(channel)] || bytes@ == seq![DESELECT_ALL]
                ==> #[trigger] call_requires(write, (m, address, bytes)),
        forall|m: &mut I2C| #[trigger] call_requires(operation, (m,)),
    ensures
        (exists|sel: &mut I2C, sel_bytes: &[u8], selected: Result<(), E>|
            *sel == *old(bus) && sel_bytes@ == seq![select_byte(channel)]
            && #[trigger] call_ensures(write, (sel, address, sel_bytes), selected)
            && match selected {
                Err(e) => r == Err::<(), Error<E>>(Error::Io(e)) && *final(bus) == *final(sel),
                Ok(()) => exists|run: &mut I2C, ran: Result<(), E>|
                    *run == *final(sel)
                    && #[trigger] call_ensures(operation, (run,), ran)
                    && match ran {
                        Err(e) => r == Err::<(), Error<E>>(Error::Io(e))
                            && *final(bus) == *final(run),
                        Ok(()) => exists|des: &mut I2C, des_bytes: &[u8], deselected: Result<(), E>|
                            *des == *final(run) && des_bytes@ == seq![DESELECT_ALL]
                            && #[trigger] call_ensures(write, (des, address, des_bytes), deselected)
                            && r == io_result(deselected) && *final(bus) == *final(des),
                    },
            }),
{
    let select_bytes: [u8; 1] = [select(channel)];
    let select_message = select_bytes.as_slice();
    assert(select_message@ =~= seq![select_byte(channel)]);
    match write(bus, address, select_message) {
        Err(e) => Err(Error::Io(e)),
        Ok(()) => match operation(bus) {
            Err(e) => Err(Error::Io(e)),
            Ok(()) => {
                let deselect_bytes: [u8; 1] = [DESELECT_ALL];
                let deselect_message = deselect_bytes.as_slice();
                assert(deselect_message@ =~= seq![DESELECT_ALL]);
                match write(bus, address, deselect_message) {
                    Err(e) => Err(Error::Io(e)),
                    Ok(()) => Ok(()),
                }
            },
        },
    }
}

/// Runs the envelope of `run_selected` on the bus behind `lock`, which is
/// the result of one attempt to take the lock.
///
/// Without the lock there is no bus to touch: `Error::BusBusy` is returned,
/// and on no other input. With it the envelope runs on the bus that the lock
/// protects, and the lock is given back when the call returns, whatever the
/// result.
pub fn run_if_locked<I2C, E, W, F>(
    lock: Option<MutexGuard<'_, I2C>>,
    address: u8,
    channel: u8,
    write: W,
    operation: F,
) -> (r: Result<(), Error<E>>)
    where
        W: Fn(&mut I2C, u8, &[u8]) -> Result<(), E>,
        F: FnOnce(&mut I2C) -> Result<(), E>,
    requires
        channel < CHANNELS,
        forall|m: &mut I2C, bytes: &[u8]|
            bytes@ == seq![select_byte(channel)] || bytes@ == seq![DESELECT_ALL]
                ==> #[trigger] call_requires(write, (m, address, bytes)),
        forall|m: &mut I2C| #[trigger] call_requires(operation, (m,)),
    ensures
        lock is None <==> r == Err::<(), Error<E>>(Error::BusBusy),
        lock is Some ==> (exists|sel: &mut I2C, sel_bytes: &[u8], selected: Result<(), E>|
            sel_bytes@ == seq![select_byte(channel)]
            && #[trigger] call_ensures(write, (sel, address, sel_bytes), selected)
            && match selected {
                Err(e) => r == Err::<(), Error<E>>(Error::Io(e)),
                Ok(()) => exists|run: &mut I2C, ran: Result<(), E>|
                    *run == *final(sel)
                    && #[trigger] call_ensures(operation, (run,), ran)
                    && match ran {
                        Err(e) => r == Err::<(), Error<E>>(Error::Io(e)),
                        Ok(()) => exists|des: &mut I2C, des_bytes: &[u8], deselected: Result<(), E>|
                            *des == *final(run) && des_bytes@ == seq![DESELECT_ALL]
                            && #[trigger] call_ensures(write, (des, address, des_bytes), deselected)
                            && r == io_result(deselected),
                    },
            }),
{
    match lock {
        None => Err(Error::BusBusy),
        Some(mut guard) => run_selected(protected(&mut guard), address, channel, write, operation),
    }
}

/// The one physical bus behind its lock, and the address at which the
/// multiplexer itself answers on that bus.
#[verifier::reject_recursive_types(I2C)]
pub struct Interface<I2C> {
    i2c: Mutex<I2C>,
    address: u8,
}

impl<I2C> Interface<I2C> {
    /// The address of the multiplexer chip.
    pub closed spec fn address(&self) -> u8 {
        self.address
    }

    /// The lock that the bus is behind.
    pub closed spec fn lock(&self) -> Mutex<I2C> {
        self.i2c
    }

    /// Joins a bus, already behind its lock, with the multiplexer's address.
    pub fn new(i2c: Mutex<I2C>, address: u8) -> (interface: Self)
        ensures
            interface.lock() == i2c,
            interface.address() == address,
    {
        Interface { i2c, address }
    }

    /// Connects `channel`, runs `operation` on the bus, and disconnects the
    /// channel again, all under the lock.
    ///
    /// The lock is tried once. If it is held, the call returns
    /// `Error::BusBusy` at once; whether it is held is decided by the lock
    /// alone. Otherwise the result is that of the envelope, as `run_selected`
    /// describes it.
    pub fn enable_to_run<E, W, F>(
        &self,
        channel: u8,
        write: W,
        operation: F,
    ) -> (r: Result<(), Error<E>>)
        where
            W: Fn(&mut I2C, u8, &[u8]) -> Result<(), E>,
            F: FnOnce(&mut I2C) -> Result<(), E>,
        requires
            channel < CHANNELS,
            forall|m: &mut I2C, bytes: &[u8]|
                bytes@ == seq![select_byte(channel)] || bytes@ == seq![DESELECT_ALL]
                    ==> #[trigger] call_requires(write, (m, self.address(), bytes)),
            forall|m: &mut I2C| #[trigger] call_requires(operation, (m,)),
        ensures
            r == Err::<(), Error<E>>(Error::BusBusy)
            || (exists|sel: &mut I2C, sel_bytes: &[u8], selected: Result<(), E>|
                sel_bytes@ == seq![select_byte(channel)]
                && #[trigger] call_ensures(write, (sel, self.address(), sel_bytes), selected)
                && match selected {
                    Err(e) => r == Err::<(), Error<E>>(Error::Io(e)),
                    Ok(()) => exists|run: &mut I2C, ran: Result<(), E>|
                        *run == *final(sel)
                        && #[trigger] call_ensures(operation, (run,), ran)
                        && match ran {
                            Err(e) => r == Err::<(), Error<E>>(Error::Io(e)),
                            Ok(()) => exists|
                                des: &mut I2C,
                                des_bytes: &[u8],
                                deselected: Result<(), E>,
                            |
                                *des == *final(run) && des_bytes@ == seq![DESELECT_ALL]
                                && #[trigger] call_ensures(
                                    write,
                                    (des, self.address(), des_bytes),
                                    deselected,
                                )
                                && r == io_result(deselected),
                        },
                }),
    {
        // Names the address as the contract does.
        assert(self.address() == self.address);
        run_if_locked(self.i2c.try_lock(), self.address, channel, write, operation)
    }
}

} // verus!
