use std::cell::RefCell;
use std::rc::Rc;

use w25::{ChipSelect, Error, ReadWrite, SpiBus, SpiInterface, W25};

#[derive(Debug, Clone, PartialEq)]
enum Op {
    Low,
    High,
    Write(Vec<u8>),
    Transfer(Vec<u8>),
}

type Trace = Rc<RefCell<Vec<Op>>>;

#[derive(Debug, Clone, Copy, PartialEq)]
struct BusFault(u8);

#[derive(Debug, Clone, Copy, PartialEq)]
struct PinFault(u8);

/// A stateless device: after the JEDEC opcode it answers with its ID,
/// after anything else with the filler it was sent.
#[derive(Default)]
struct MockBus {
    trace: Trace,
    id: Vec<u8>,
    last_write: Vec<u8>,
    fail_write: bool,
    fail_transfer: bool,
}

impl SpiBus for MockBus {
    type Error = BusFault;

    fn write(&mut self, words: &[u8]) -> Result<(), BusFault> {
        self.trace.borrow_mut().push(Op::Write(words.to_vec()));
        self.last_write = words.to_vec();
        if self.fail_write {
            Err(BusFault(1))
        } else {
            Ok(())
        }
    }

    fn transfer(&mut self, words: &mut [u8]) -> Result<(), BusFault> {
        self.trace.borrow_mut().push(Op::Transfer(words.to_vec()));
        if self.fail_transfer {
            for w in words.iter_mut() {
                *w = 0xAA;
            }
            return Err(BusFault(2));
        }
        if self.last_write == vec![0x9F] {
            for (i, w) in words.iter_mut().enumerate() {
                *w = self.id[i % self.id.len()];
            }
        }
        Ok(())
    }
}

#[derive(Default)]
struct MockPin {
    trace: Trace,
    fail_low: bool,
    fail_high: bool,
}

impl ChipSelect for MockPin {
    type Error = PinFault;

    fn set_low(&mut self) -> Result<(), PinFault> {
        self.trace.borrow_mut().push(Op::Low);
        if self.fail_low {
            Err(PinFault(3))
        } else {
            Ok(())
        }
    }

    fn set_high(&mut self) -> Result<(), PinFault> {
        self.trace.borrow_mut().push(Op::High);
        if self.fail_high {
            Err(PinFault(4))
        } else {
            Ok(())
        }
    }
}

struct Faults {
    low: bool,
    write: bool,
    transfer: bool,
    high: bool,
}

const NO_FAULTS: Faults = Faults { low: false, write: false, transfer: false, high: false };

fn parts(f: Faults) -> (MockBus, MockPin, Trace) {
    let trace: Trace = Rc::new(RefCell::new(Vec::new()));
    let bus = MockBus {
        trace: trace.clone(),
        id: vec![0xEF, 0x40, 0x17],
        last_write: Vec::new(),
        fail_write: f.write,
        fail_transfer: f.transfer,
    };
    let pin = MockPin { trace: trace.clone(), fail_low: f.low, fail_high: f.high };
    (bus, pin, trace)
}

fn device(f: Faults) -> (W25<SpiInterface<MockBus, MockPin>>, Trace) {
    let (bus, pin, trace) = parts(f);
    (W25::new_w25q64(bus, pin), trace)
}

fn jedec_trace() -> Vec<Op> {
    vec![Op::Low, Op::Write(vec![0x9F]), Op::Transfer(vec![0, 0, 0]), Op::High]
}

#[test]
fn jedec_id_round_trip() {
    let (mut dev, _) = device(NO_FAULTS);
    assert_eq!(dev.get_jedec_id().unwrap(), [0xEF, 0x40, 0x17]);
}

#[test]
fn construction_sends_nothing() {
    let (_dev, trace) = device(NO_FAULTS);
    assert!(trace.borrow().is_empty());
}

#[test]
fn successful_exchange_order() {
    let (mut dev, trace) = device(NO_FAULTS);
    assert!(dev.get_jedec_id().is_ok());
    assert_eq!(*trace.borrow(), jedec_trace());
}

#[test]
fn write_failure_still_deselects() {
    let (mut dev, trace) = device(Faults { write: true, ..NO_FAULTS });
    let r = dev.get_jedec_id();
    assert!(matches!(r, Err(Error::Spi(BusFault(1)))));
    assert_eq!(*trace.borrow(), vec![Op::Low, Op::Write(vec![0x9F]), Op::High]);
}

#[test]
fn transfer_failure_still_deselects() {
    let (mut dev, trace) = device(Faults { transfer: true, ..NO_FAULTS });
    let r = dev.get_jedec_id();
    assert!(matches!(r, Err(Error::Spi(BusFault(2)))));
    assert_eq!(*trace.borrow(), jedec_trace());
}

#[test]
fn select_failure_stops_the_exchange() {
    let (mut dev, trace) = device(Faults { low: true, ..NO_FAULTS });
    let r = dev.get_jedec_id();
    assert!(matches!(r, Err(Error::Pin(PinFault(3)))));
    assert_eq!(*trace.borrow(), vec![Op::Low]);
}

#[test]
fn transfer_error_wins_over_deselect_error() {
    let (mut dev, trace) = device(Faults { transfer: true, high: true, ..NO_FAULTS });
    let r = dev.get_jedec_id();
    assert!(matches!(r, Err(Error::Spi(BusFault(2)))));
    assert_eq!(*trace.borrow(), jedec_trace());
}

#[test]
fn write_error_wins_over_deselect_error() {
    let (mut dev, trace) = device(Faults { write: true, high: true, ..NO_FAULTS });
    let r = dev.get_jedec_id();
    assert!(matches!(r, Err(Error::Spi(BusFault(1)))));
    assert_eq!(*trace.borrow(), vec![Op::Low, Op::Write(vec![0x9F]), Op::High]);
}

#[test]
fn deselect_error_alone_is_reported() {
    let (mut dev, trace) = device(Faults { high: true, ..NO_FAULTS });
    let r = dev.get_jedec_id();
    assert!(matches!(r, Err(Error::Pin(PinFault(4)))));
    assert_eq!(*trace.borrow(), jedec_trace());
}

#[test]
fn repeated_reads_agree() {
    let (mut dev, trace) = device(NO_FAULTS);
    let first = dev.get_jedec_id().unwrap();
    assert_eq!(trace.borrow().last(), Some(&Op::High));
    let second = dev.get_jedec_id().unwrap();
    assert_eq!(first, second);
    let mut twice = jedec_trace();
    twice.extend(jedec_trace());
    assert_eq!(*trace.borrow(), twice);
}

#[test]
fn payload_is_left_untouched() {
    let (bus, pin, trace) = parts(NO_FAULTS);
    let mut iface = SpiInterface::new(bus, pin);
    let payload: [u8; 2] = [0x03, 0x10];
    let mut buf: [u8; 2] = [0x55, 0x66];
    assert!(iface.write_read(&payload, &mut buf).is_ok());
    assert_eq!(payload, [0x03, 0x10]);
    // the filler clocked out is what the buffer held; this device echoes it
    assert_eq!(buf, [0x55, 0x66]);
    assert_eq!(
        *trace.borrow(),
        vec![Op::Low, Op::Write(vec![0x03, 0x10]), Op::Transfer(vec![0x55, 0x66]), Op::High]
    );
}

#[test]
fn empty_payload_and_buffer() {
    let (bus, pin, trace) = parts(NO_FAULTS);
    let mut iface = SpiInterface::new(bus, pin);
    let mut buf: [u8; 0] = [];
    assert!(iface.write_read(&[], &mut buf).is_ok());
    assert_eq!(*trace.borrow(), vec![Op::Low, Op::Write(vec![]), Op::Transfer(vec![]), Op::High]);
}

#[test]
fn longer_response_fills_the_buffer() {
    let (bus, pin, _) = parts(NO_FAULTS);
    let mut iface = SpiInterface::new(bus, pin);
    let mut buf: [u8; 5] = [0; 5];
    assert!(iface.write_read(&[0x9F], &mut buf).is_ok());
    assert_eq!(buf, [0xEF, 0x40, 0x17, 0xEF, 0x40]);
}

#[test]
fn jedec_opcode_value() {
    assert_eq!(w25::device::JEDEC_ID, 0x9F);
}

#[test]
fn spi_modes_are_reexported() {
    assert!(w25::MODE_0 == embedded_hal::spi::MODE_0);
    assert!(w25::MODE_3 == embedded_hal::spi::MODE_3);
}

#[test]
fn default_device_sends_nothing() {
    let dev: W25<SpiInterface<MockBus, MockPin>> = W25::default();
    let iface: SpiInterface<MockBus, MockPin> = SpiInterface::default();
    drop(iface);
    drop(dev);
}

#[test]
fn failed_transfer_keeps_buffer_length() {
    let (bus, pin, _) = parts(Faults { transfer: true, ..NO_FAULTS });
    let mut iface = SpiInterface::new(bus, pin);
    let mut buf: Vec<u8> = vec![0; 4];
    let r = iface.write_read(&[0x9F], &mut buf);
    assert!(matches!(r, Err(Error::Spi(BusFault(2)))));
    assert_eq!(buf.len(), 4);
}
