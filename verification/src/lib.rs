//! Driver core for the TCA9548 eight-channel I2C bus multiplexer.
//!
//! The chip routes one upstream bus to one of eight downstream channels. A
//! channel is connected by writing a byte with that channel's bit set to the
//! chip's own address, and all channels are disconnected by writing zero.
//! Every transfer on a channel is wrapped in that pair of writes, and the
//! whole envelope runs under a lock that is only ever tried, never waited for.
//!
//! The bus itself is any value `I2C` together with the functions that drive
//! it: one that writes bytes to an address, handed to each call that needs
//! it, and the caller's own operation. For a bus of `embedded-hal` these are
//! its `write` method and a closure around its `transaction` method.
//! Contracts speak of the calls made to those functions, and of the state in
//! which each call leaves the bus; the module `interface` says how to read
//! them, and the module `history` draws from them what a bus that keeps a
//! record would show.
use vstd::prelude::*;
use crate::interface::{io_result, Interface};
use crate::select::{select_byte, CHANNELS, DESELECT_ALL};

pub mod history;
pub mod interface;
pub mod lock;
pub mod select;

verus! {

/// An error that occurs when communicating through the multiplexer.
#[derive(Debug)]
pub enum Error<E> {
    /// The transport reported a failure; its own error value is passed on.
    Io(E),
    /// The shared bus is in use by another channel at this moment.
    BusBusy,
}

/// A driver for the TCA9548 I2C bus multiplexer.
#[verifier::reject_recursive_types(I2C)]
pub struct Tca9548<I2C> {
    interface: Interface<I2C>,
}

impl<I2C> Tca9548<I2C> {
    /// The interface that this multiplexer's channels share.
    pub closed spec fn interface(&self) -> Interface<I2C> {
        self.interface
    }

    /// Creates the driver for the multiplexer at `address` on the bus `i2c`.
    ///
    /// Before anything else the deselect byte is written to `address`, so
    /// that no channel is connected. If that write fails, its error is
    /// returned and no driver is made.
    pub fn new<E, W>(i2c: I2C, address: u8, write: W) -> (r: Result<Self, E>)
        where
            W: FnOnce(&mut I2C, u8, &[u8]) -> Result<(), E>,
        requires
            forall|m: &mut I2C, bytes: &[u8]|
                bytes@ == seq![DESELECT_ALL]
                    ==> #[trigger] call_requires(write, (m, address, bytes)),
        ensures
            (exists|reset: &mut I2C, bytes: &[u8], outcome: Result<(), E>|
                *reset == i2c && bytes@ == seq![DESELECT_ALL]
                && #[trigger] call_ensures(write, (reset, address, bytes), outcome)
                && match outcome {
                    Ok(()) => r matches Ok(mux) && mux.interface().address() == address,
                    Err(e) => r matches Err(returned) && returned == e,
                }),
    {
        let mut bus = i2c;
        let deselect_bytes: [u8; 1] = [DESELECT_ALL];
        let deselect_message = deselect_bytes.as_slice();
        assert(deselect_message@ =~= seq![DESELECT_ALL]);
        match write(&mut bus, address, deselect_message) {
            Err(e) => Err(e),
            Ok(()) => {
                let interface = Interface::new(spin::mutex::Mutex::new(bus), address);
                Ok(Tca9548 { interface })
            },
        }
    }

    /// Splits the multiplexer into its eight channels, each usable as a bus
    /// of its own. All eight share this multiplexer's interface. The
    /// exclusive borrow lasts as long as any of them lives, so no second set
    /// can be made meanwhile.
    pub fn split(&mut self) -> (busses: Busses<'_, I2C>)
        ensures
            busses.bus0.interface() == old(self).interface(),
            busses.bus1.interface() == old(self).interface(),
            busses.bus2.interface() == old(self).interface(),
            busses.bus3.interface() == old(self).interface(),
            busses.bus4.interface() == old(self).interface(),
            busses.bus5.interface() == old(self).interface(),
            busses.bus6.interface() == old(self).interface(),
            busses.bus7.interface() == old(self).interface(),
            final(self).interface() == old(self).interface(),
    {
        Busses {
            bus0: MultiplexedBus { interface: &self.interface },
            bus1: MultiplexedBus { interface: &self.interface },
            bus2: MultiplexedBus { interface: &self.interface },
            bus3: MultiplexedBus { interface: &self.interface },
            bus4: MultiplexedBus { interface: &self.interface },
            bus5: MultiplexedBus { interface: &self.interface },
            bus6: MultiplexedBus { interface: &self.interface },
            bus7: MultiplexedBus { interface: &self.interface },
        }
    }
}

/// The busses on the TCA9548.
#[verifier::reject_recursive_types(I2C)]
pub struct Busses<'a, I2C> {
    /// Bus 0.
    pub bus0: MultiplexedBus<'a, I2C, 0>,
    /// Bus 1.
    pub bus1: MultiplexedBus<'a, I2C, 1>,
    /// Bus 2.
    pub bus2: MultiplexedBus<'a, I2C, 2>,
    /// Bus 3.
    pub bus3: MultiplexedBus<'a, I2C, 3>,
    /// Bus 4.
    pub bus4: MultiplexedBus<'a, I2C, 4>,
    /// Bus 5.
    pub bus5: MultiplexedBus<'a, I2C, 5>,
    /// Bus 6.
    pub bus6: MultiplexedBus<'a, I2C, 6>,
    /// Bus 7.
    pub bus7: MultiplexedBus<'a, I2C, 7>,
}

/// A multiplexed I2C bus. Using this bus will briefly enable the selected
/// channel on the TCA9548, then disable it again after the transaction is
/// complete.
#[verifier::reject_recursive_types(I2C)]
pub struct MultiplexedBus<'a, I2C, const NUM: u8> {
    interface: &'a Interface<I2C>,
}

impl<'a, I2C, const NUM: u8> MultiplexedBus<'a, I2C, NUM> {
    /// A channel handle only exists for the channels that the chip has.
    #[verifier::type_invariant]
    spec fn channel_exists(&self) -> bool {
        NUM < CHANNELS
    }

    /// The interface that this channel shares with its siblings.
    pub closed spec fn interface(&self) -> Interface<I2C> {
        *self.interface
    }

    /// Runs `operation` on the bus with this channel connected, and
    /// disconnects the channel again.
    ///
    /// The lock on the shared bus is tried once. If another channel holds
    /// it, the call returns `Error::BusBusy` at once. Otherwise the select
    /// byte of this channel is written to the multiplexer, `operation` runs,
    /// and the deselect byte is written: each on the bus as the call before
    /// left it, and only if the call before succeeded. The first failure is
    /// returned as `Error::Io` with the transport's own error in it.
    pub fn transaction<E, W, F>(&mut self, write: W, operation: F) -> (r: Result<(), Error<E>>)
        where
            W: Fn(&mut I2C, u8, &[u8]) -> Result<(), E>,
            F: FnOnce(&mut I2C) -> Result<(), E>,
        requires
            forall|m: &mut I2C, bytes: &[u8]|
                bytes@ == seq![select_byte(NUM)] || bytes@ == seq![DESELECT_ALL]
                    ==> #[trigger] call_requires(
                    write,
                    (m, old(self).interface().address(), bytes),
                ),
            forall|m: &mut I2C| #[trigger] call_requires(operation, (m,)),
        ensures
            *final(self) == *old(self),
            r == Err::<(), Error<E>>(Error::BusBusy)
            || (exists|sel: &mut I2C, sel_bytes: &[u8], selected: Result<(), E>|
                sel_bytes@ == seq![select_byte(NUM)]
                && #[trigger] call_ensures(
                    write,
                    (sel, old(self).interface().address(), sel_bytes),
                    selected,
                )
                && match selected {
                    Err(e) => r == Err::<(), Error<E>>(Error::Io(e)),
                    Ok(()) => exists|run: &mut I2C, ran: Result<(), E>|
                        *run == *final(sel)
                        && #[trigger] call_ensures(operation, (run,), ran)
                        && match ran {
                            Err(e) => r == Err::<(), Error<E>>(Error::Io(e)),
                            Ok(()) => exists|
                                des: &mut I2C,
                                des_bytes: &[u8],
                                deselected: Result<(), E>,
                            |
                                *des == *final(run) && des_bytes@ == seq![DESELECT_ALL]
                                && #[trigger] call_ensures(
                                    write,
                                    (des, old(self).interface().address(), des_bytes),
                                    deselected,
                                )
                                && r == io_result(deselected),
                        },
                }),
    {
        proof {
            use_type_invariant(&*self);
        }
        // Names the interface as the contract does.
        assert(self.interface() == *self.interface);
        self.interface.enable_to_run(NUM, write, operation)
    }
}

} // verus!
