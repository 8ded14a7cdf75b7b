use std::cell::RefCell;
use std::rc::Rc;

use embedded_hal::i2c::{ErrorKind, ErrorType, I2c, Operation};
use tca9548::interface::{run_if_locked, run_selected, Interface};
use tca9548::{Busses, Error, MultiplexedBus, Tca9548};

const MUX: u8 = 0x70;
const DEVICE: u8 = 0x48;

#[derive(Debug, Clone, Copy, PartialEq, Eq)]
struct Fault(usize);

impl embedded_hal::i2c::Error for Fault {
    fn kind(&self) -> ErrorKind {
        ErrorKind::Other
    }
}

#[derive(Debug, Clone, PartialEq, Eq)]
enum Seen {
    Write(u8, Vec<u8>),
    Read(u8, usize),
}

type Log = Rc<RefCell<Vec<Seen>>>;

/// A bus that notes every operation asked of it, and fails the transaction
/// with the given index, counted from zero, after noting it.
struct Recorder {
    log: Log,
    transactions: usize,
    fail_at: Option<usize>,
}

impl Recorder {
    fn new(fail_at: Option<usize>) -> (Recorder, Log) {
        let log: Log = Rc::new(RefCell::new(Vec::new()));
        (Recorder { log: log.clone(), transactions: 0, fail_at }, log)
    }
}

impl ErrorType for Recorder {
    type Error = Fault;
}

impl I2c for Recorder {
    fn transaction(&mut self, address: u8, operations: &mut [Operation<'_>]) -> Result<(), Fault> {
        let index = self.transactions;
        self.transactions += 1;
        for operation in operations.iter_mut() {
            let entry = match operation {
                Operation::Write(bytes) => Seen::Write(address, bytes.to_vec()),
                Operation::Read(buffer) => {
                    buffer.fill(0xA5);
                    Seen::Read(address, buffer.len())
                },
            };
            self.log.borrow_mut().push(entry);
        }
        if self.fail_at == Some(index) {
            Err(Fault(index))
        } else {
            Ok(())
        }
    }
}

/// The write function that the driver is given: the bus's own `write`.
fn write(bus: &mut Recorder, address: u8, bytes: &[u8]) -> Result<(), Fault> {
    bus.write(address, bytes)
}

fn seen(log: &Log) -> Vec<Seen> {
    log.borrow().clone()
}

/// The bytes written to the multiplexer's own address, in order.
fn mux_writes(log: &Log) -> Vec<u8> {
    let mut bytes = Vec::new();
    for entry in log.borrow().iter() {
        if let Seen::Write(address, written) = entry {
            if *address == MUX {
                bytes.extend_from_slice(written);
            }
        }
    }
    bytes
}

fn to_mux(byte: u8) -> Seen {
    Seen::Write(MUX, vec![byte])
}

fn to_device(bytes: &[u8]) -> Seen {
    Seen::Write(DEVICE, bytes.to_vec())
}

fn multiplexer(fail_at: Option<usize>) -> (Tca9548<Recorder>, Log) {
    let (bus, log) = Recorder::new(fail_at);
    match Tca9548::new(bus, MUX, write) {
        Ok(mux) => (mux, log),
        Err(fault) => panic!("the reset write failed: {:?}", fault),
    }
}

fn envelope_on<const NUM: u8>(bus: &mut MultiplexedBus<'_, Recorder, NUM>, log: &Log) {
    let start = log.borrow().len();
    let result = bus.transaction(write, |i2c: &mut Recorder| i2c.write(DEVICE, &[0xAB, NUM]));
    assert!(matches!(result, Ok(())));
    assert_eq!(seen(log)[start..], [to_mux(1u8 << NUM), to_device(&[0xAB, NUM]), to_mux(0x00)]);
}

#[test]
fn new_deselects_all_channels_first() {
    let (_mux, log) = multiplexer(None);
    assert_eq!(seen(&log), [to_mux(0x00)]);
}

#[test]
fn new_writes_to_the_address_it_is_given() {
    let (bus, log) = Recorder::new(None);
    assert!(Tca9548::new(bus, 0x77, write).is_ok());
    assert_eq!(seen(&log), [Seen::Write(0x77, vec![0x00])]);
}

#[test]
fn new_returns_the_error_of_the_reset_write() {
    let (bus, log) = Recorder::new(Some(0));
    match Tca9548::new(bus, MUX, write) {
        Ok(_) => panic!("a driver was made although the reset write failed"),
        Err(fault) => assert_eq!(fault, Fault(0)),
    }
    assert_eq!(seen(&log), [to_mux(0x00)]);
}

#[test]
fn transaction_selects_runs_and_deselects_on_every_channel() {
    let (mut mux, log) = multiplexer(None);
    let mut busses = mux.split();
    envelope_on(&mut busses.bus0, &log);
    envelope_on(&mut busses.bus1, &log);
    envelope_on(&mut busses.bus2, &log);
    envelope_on(&mut busses.bus3, &log);
    envelope_on(&mut busses.bus4, &log);
    envelope_on(&mut busses.bus5, &log);
    envelope_on(&mut busses.bus6, &log);
    envelope_on(&mut busses.bus7, &log);
    assert_eq!(
        mux_writes(&log),
        [
            0x00, 0x01, 0x00, 0x02, 0x00, 0x04, 0x00, 0x08, 0x00, 0x10, 0x00, 0x20, 0x00, 0x40,
            0x00, 0x80, 0x00
        ]
    );
}

#[test]
fn transaction_hands_the_bus_to_the_operation() {
    let (mut mux, log) = multiplexer(None);
    let mut busses = mux.split();
    let mut buffer = [0u8; 2];
    let result = busses
        .bus4
        .transaction(write, |i2c: &mut Recorder| i2c.write_read(DEVICE, &[0x01], &mut buffer));
    assert!(matches!(result, Ok(())));
    assert_eq!(buffer, [0xA5, 0xA5]);
    assert_eq!(
        seen(&log),
        [to_mux(0x00), to_mux(0x10), to_device(&[0x01]), Seen::Read(DEVICE, 2), to_mux(0x00)]
    );
}

#[test]
fn second_transaction_is_busy_while_the_guard_is_held() {
    let (mut mux, log) = multiplexer(None);
    let Busses { mut bus0, mut bus1, .. } = mux.split();
    let mut inner = None;
    let outer = bus0.transaction(write, |_i2c: &mut Recorder| {
        inner = Some(bus1.transaction(write, |i2c: &mut Recorder| i2c.write(DEVICE, &[0xFF])));
        Ok(())
    });
    assert!(matches!(inner, Some(Err(Error::BusBusy))));
    assert!(matches!(outer, Ok(())));
    assert_eq!(seen(&log), [to_mux(0x00), to_mux(0x01), to_mux(0x00)]);
}

#[test]
fn without_the_lock_nothing_is_written() {
    let (bus, log) = Recorder::new(None);
    let lock = spin::Mutex::new(bus);
    let held = lock.try_lock();
    assert!(held.is_some());
    let mut ran = false;
    let result = run_if_locked(lock.try_lock(), MUX, 2, write, |_i2c: &mut Recorder| {
        ran = true;
        Ok(())
    });
    assert!(matches!(result, Err(Error::BusBusy)));
    assert!(!ran);
    assert_eq!(seen(&log), []);
}

#[test]
fn with_the_lock_the_envelope_runs() {
    let (bus, log) = Recorder::new(None);
    let lock = spin::Mutex::new(bus);
    let operation = |i2c: &mut Recorder| i2c.write(DEVICE, &[0x33]);
    let result = run_if_locked(lock.try_lock(), MUX, 2, write, operation);
    assert!(matches!(result, Ok(())));
    assert_eq!(seen(&log), [to_mux(0x04), to_device(&[0x33]), to_mux(0x00)]);
    assert!(lock.try_lock().is_some());
}

#[test]
fn failed_operation_leaves_the_channel_selected() {
    let (mut mux, log) = multiplexer(Some(2));
    let mut busses = mux.split();
    let result = busses.bus6.transaction(write, |i2c: &mut Recorder| i2c.write(DEVICE, &[0x55]));
    assert!(matches!(result, Err(Error::Io(Fault(2)))));
    assert_eq!(seen(&log), [to_mux(0x00), to_mux(0x40), to_device(&[0x55])]);
    assert_eq!(mux_writes(&log), [0x00, 0x40]);
}

#[test]
fn failed_operation_passes_its_own_error_on() {
    let (mut mux, log) = multiplexer(None);
    let mut busses = mux.split();
    let result = busses.bus1.transaction(write, |_i2c: &mut Recorder| Err(Fault(99)));
    assert!(matches!(result, Err(Error::Io(Fault(99)))));
    assert_eq!(mux_writes(&log), [0x00, 0x02]);
}

#[test]
fn failed_select_skips_the_operation() {
    let (mut mux, log) = multiplexer(Some(1));
    let mut busses = mux.split();
    let mut ran = false;
    let result = busses.bus5.transaction(write, |_i2c: &mut Recorder| {
        ran = true;
        Ok(())
    });
    assert!(matches!(result, Err(Error::Io(Fault(1)))));
    assert!(!ran);
    assert_eq!(seen(&log), [to_mux(0x00), to_mux(0x20)]);
}

#[test]
fn failed_deselect_is_reported_after_a_successful_operation() {
    let (mut mux, log) = multiplexer(Some(3));
    let mut busses = mux.split();
    let result = busses.bus7.transaction(write, |i2c: &mut Recorder| i2c.write(DEVICE, &[0x01]));
    assert!(matches!(result, Err(Error::Io(Fault(3)))));
    assert_eq!(seen(&log), [to_mux(0x00), to_mux(0x80), to_device(&[0x01]), to_mux(0x00)]);
}

#[test]
fn round_trip_on_channel_3_then_channel_5() {
    let (mut mux, log) = multiplexer(None);
    log.borrow_mut().clear();
    let mut busses = mux.split();
    let mut buffer = [0u8; 4];
    let read = busses.bus3.transaction(write, |i2c: &mut Recorder| i2c.read(DEVICE, &mut buffer));
    assert!(matches!(read, Ok(())));
    assert_eq!(buffer, [0xA5; 4]);
    let second = busses.bus5.transaction(write, |_i2c: &mut Recorder| Ok(()));
    assert!(matches!(second, Ok(())));
    assert_eq!(mux_writes(&log), [0x08, 0x00, 0x20, 0x00]);
    assert_eq!(
        seen(&log),
        [to_mux(0x08), Seen::Read(DEVICE, 4), to_mux(0x00), to_mux(0x20), to_mux(0x00)]
    );
}

#[test]
fn sequential_transactions_do_not_overlap() {
    let (mut mux, log) = multiplexer(None);
    let mut busses = mux.split();
    let first = busses.bus2.transaction(write, |i2c: &mut Recorder| i2c.write(DEVICE, &[0x0A]));
    let second = busses.bus6.transaction(write, |i2c: &mut Recorder| i2c.write(DEVICE, &[0x0B]));
    assert!(matches!(first, Ok(())));
    assert!(matches!(second, Ok(())));
    assert_eq!(
        seen(&log),
        [
            to_mux(0x00),
            to_mux(0x04),
            to_device(&[0x0A]),
            to_mux(0x00),
            to_mux(0x40),
            to_device(&[0x0B]),
            to_mux(0x00),
        ]
    );
}

#[test]
fn the_guard_is_free_again_after_a_failure() {
    let (mut mux, log) = multiplexer(Some(2));
    let mut busses = mux.split();
    let failed = busses.bus0.transaction(write, |i2c: &mut Recorder| i2c.write(DEVICE, &[0x01]));
    assert!(matches!(failed, Err(Error::Io(Fault(2)))));
    let next = busses.bus1.transaction(write, |i2c: &mut Recorder| i2c.write(DEVICE, &[0x02]));
    assert!(matches!(next, Ok(())));
    assert_eq!(mux_writes(&log), [0x00, 0x01, 0x02, 0x00]);
}

#[test]
fn the_guard_is_free_again_after_a_busy_attempt() {
    let (mut mux, log) = multiplexer(None);
    let Busses { mut bus0, mut bus1, .. } = mux.split();
    let mut inner = None;
    let outer = bus0.transaction(write, |_i2c: &mut Recorder| {
        inner = Some(bus1.transaction(write, |_i2c: &mut Recorder| Ok(())));
        Ok(())
    });
    assert!(matches!(outer, Ok(())));
    assert!(matches!(inner, Some(Err(Error::BusBusy))));
    let retry = bus1.transaction(write, |_i2c: &mut Recorder| Ok(()));
    assert!(matches!(retry, Ok(())));
    assert_eq!(mux_writes(&log), [0x00, 0x01, 0x00, 0x02, 0x00]);
}

#[test]
fn split_can_be_repeated_once_the_first_set_is_gone() {
    let (mut mux, log) = multiplexer(None);
    {
        let mut busses = mux.split();
        envelope_on(&mut busses.bus0, &log);
    }
    {
        let mut busses = mux.split();
        envelope_on(&mut busses.bus7, &log);
    }
    assert_eq!(mux_writes(&log), [0x00, 0x01, 0x00, 0x80, 0x00]);
}

#[test]
fn run_selected_wraps_the_operation_on_a_bare_bus() {
    let (mut bus, log) = Recorder::new(None);
    let operation = |i2c: &mut Recorder| i2c.write(DEVICE, &[0x42]);
    let result = run_selected(&mut bus, MUX, 1, write, operation);
    assert!(matches!(result, Ok(())));
    assert_eq!(seen(&log), [to_mux(0x02), to_device(&[0x42]), to_mux(0x00)]);
}

#[test]
fn run_selected_stops_at_the_first_failure() {
    let (mut bus, log) = Recorder::new(Some(0));
    let operation = |i2c: &mut Recorder| i2c.write(DEVICE, &[0x42]);
    let result = run_selected(&mut bus, MUX, 1, write, operation);
    assert!(matches!(result, Err(Error::Io(Fault(0)))));
    assert_eq!(seen(&log), [to_mux(0x02)]);
}

#[test]
fn interface_runs_the_envelope_under_its_lock() {
    let (bus, log) = Recorder::new(None);
    let interface = Interface::new(spin::Mutex::new(bus), MUX);
    let mut inner = None;
    let outer = interface.enable_to_run(4, write, |_i2c: &mut Recorder| {
        inner = Some(interface.enable_to_run(5, write, |_i2c: &mut Recorder| Ok(())));
        Ok(())
    });
    assert!(matches!(outer, Ok(())));
    assert!(matches!(inner, Some(Err(Error::BusBusy))));
    assert_eq!(seen(&log), [to_mux(0x10), to_mux(0x00)]);
}

#[test]
fn error_formats_for_debugging() {
    let busy: Error<Fault> = Error::BusBusy;
    assert_eq!(format!("{:?}", busy), "BusBusy");
    assert_eq!(format!("{:?}", Error::Io(Fault(4))), "Io(Fault(4))");
}

#[test]
fn the_write_method_of_the_bus_drives_the_multiplexer() {
    let (bus, log) = Recorder::new(None);
    let mut mux = match Tca9548::new(bus, MUX, Recorder::write) {
        Ok(mux) => mux,
        Err(fault) => panic!("the reset write failed: {:?}", fault),
    };
    let mut busses = mux.split();
    let mut buffer = [0u8; 1];
    let result = busses.bus2.transaction(Recorder::write, |i2c: &mut Recorder| {
        i2c.transaction(DEVICE, &mut [Operation::Write(&[0x07]), Operation::Read(&mut buffer)])
    });
    assert!(matches!(result, Ok(())));
    assert_eq!(buffer, [0xA5]);
    assert_eq!(
        seen(&log),
        [to_mux(0x00), to_mux(0x04), to_device(&[0x07]), Seen::Read(DEVICE, 1), to_mux(0x00)]
    );
}
