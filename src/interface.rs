//! The exchange over an SPI bus and a chip-select line.
use vstd::prelude::*;

use crate::error::Error;
use crate::protocol::{
    blames_layer, events_since, exchange_levels, exchange_sent, first_failure, is_exchange,
    received, BusEvent,
};
use crate::sealed::Sealed;

verus! {

/// A blocking SPI bus, as the exchange uses it.
pub trait SpiBus {
    /// What a failed bus operation reports.
    type Error;

    /// The words handed to the bus so far, one entry per write or transfer,
    /// oldest first. The body is only a default, so that an implementation
    /// written in plain Rust need not define it; for a bus type that is a
    /// parameter, the verifier does not unfold it.
    closed spec fn sent(&self) -> Seq<Seq<u8>> {
        Seq::empty()
    }

    /// Sends `words`, ignoring the words that come back.
    fn write(&mut self, words: &[u8]) -> (r: Result<(), Self::Error>)
        ensures
            final(self).sent() == old(self).sent().push(words@),
    ;

    /// Sends the words of `words` while the words that come back replace
    /// them, in place.
    fn transfer(&mut self, words: &mut [u8]) -> (r: Result<(), Self::Error>)
        ensures
            final(self).sent() == old(self).sent().push(old(words)@),
            final(words)@.len() == old(words)@.len(),
    ;
}

/// The chip-select line of one device; active low.
pub trait ChipSelect {
    /// What a failed change of the line reports.
    type Error;

    /// The levels the line was driven to so far (`true` for high), oldest
    /// first. As with `SpiBus::sent`, the body is only a default.
    closed spec fn levels(&self) -> Seq<bool> {
        Seq::empty()
    }

    /// Drives the line low, selecting the device.
    fn set_low(&mut self) -> (r: Result<(), Self::Error>)
        ensures
            final(self).levels() == old(self).levels().push(false),
    ;

    /// Drives the line high, releasing the device.
    fn set_high(&mut self) -> (r: Result<(), Self::Error>)
        ensures
            final(self).levels() == old(self).levels().push(true),
    ;
}

/// The error of one exchange over `SPI` and `CS`.
pub type ExchangeError<SPI, CS> = Error<<SPI as SpiBus>::Error, <CS as ChipSelect>::Error>;

/// A bus and the chip-select line of one device on it, owned together.
///
/// The ghost log records every operation performed on them, in order.
pub struct SpiInterface<SPI: SpiBus, CS: ChipSelect> {
    pub(crate) spi: SPI,
    pub(crate) cs: CS,
    pub(crate) log: Ghost<Seq<BusEvent<ExchangeError<SPI, CS>>>>,
}

/// A pin outcome in the exchange's error type.
pub open spec fn pin_outcome<SpiE, PinE>(r: Result<(), PinE>) -> Result<(), Error<SpiE, PinE>> {
    match r {
        Ok(()) => Ok(()),
        Err(e) => Err(Error::Pin(e)),
    }
}

/// A bus outcome in the exchange's error type.
pub open spec fn spi_outcome<SpiE, PinE>(r: Result<(), SpiE>) -> Result<(), Error<SpiE, PinE>> {
    match r {
        Ok(()) => Ok(()),
        Err(e) => Err(Error::Spi(e)),
    }
}

/// One exchange with the device: write a command, then read its response.
pub trait ReadWrite: Sealed {
    /// What a failed exchange reports.
    type Error;

    /// Every operation performed on the bus and the chip-select line so far,
    /// oldest first.
    spec fn bus_log(&self) -> Seq<BusEvent<Self::Error>>;

    /// The words handed to the bus so far, one entry per write or transfer.
    spec fn bus_sent(&self) -> Seq<Seq<u8>>;

    /// The levels the chip-select line was driven to so far (`true` for high).
    spec fn line_levels(&self) -> Seq<bool>;

    /// `e` reports a failure of the bus.
    spec fn is_bus_error(e: Self::Error) -> bool;

    /// `e` reports a failure of the chip-select line.
    spec fn is_pin_error(e: Self::Error) -> bool;

    /// Selects the chip, writes `write_payload`, clocks `read_payload` out
    /// while capturing the response into it, and deselects the chip.
    ///
    /// A failed select ends the exchange at once. A failed write skips the
    /// transfer. The chip is deselected whenever it was selected, and the
    /// first failure detected is the one returned. After a failure the
    /// buffer's contents are unspecified.
    fn write_read(&mut self, write_payload: &[u8], read_payload: &mut [u8]) -> (r: Result<
        (),
        Self::Error,
    >)
        ensures
            old(self).bus_log().is_prefix_of(final(self).bus_log()),
            is_exchange(
                write_payload@,
                old(read_payload)@,
                events_since(old(self).bus_log(), final(self).bus_log()),
            ),
            blames_layer(
                events_since(old(self).bus_log(), final(self).bus_log()),
                |e: Self::Error| Self::is_bus_error(e),
                |e: Self::Error| Self::is_pin_error(e),
            ),
            final(self).bus_sent() == old(self).bus_sent() + exchange_sent(
                write_payload@,
                old(read_payload)@,
                events_since(old(self).bus_log(), final(self).bus_log()),
            ),
            final(self).line_levels() == old(self).line_levels() + exchange_levels(
                events_since(old(self).bus_log(), final(self).bus_log()),
            ),
            final(read_payload)@.len() == old(read_payload)@.len(),
            r == first_failure(events_since(old(self).bus_log(), final(self).bus_log())),
            r is Ok ==> final(read_payload)@ == received(
                events_since(old(self).bus_log(), final(self).bus_log()),
            ),
    ;
}

impl<SPI: SpiBus, CS: ChipSelect> SpiInterface<SPI, CS> {
    /// Takes ownership of the bus and the line, as they are; nothing is sent.
    pub fn new(spi: SPI, cs: CS) -> (r: Self)
        ensures
            r.spi() == spi,
            r.cs() == cs,
            r.bus_log().len() == 0,
    {
        SpiInterface { spi, cs, log: Ghost(Seq::empty()) }
    }

    /// The bus held.
    pub closed spec fn spi(&self) -> SPI {
        self.spi
    }

    /// The chip-select line held.
    pub closed spec fn cs(&self) -> CS {
        self.cs
    }

    /// Drives the line low and records it.
    fn select(&mut self) -> (r: Result<(), CS::Error>)
        ensures
            final(self).log@ == old(self).log@.push(BusEvent::Select(pin_outcome(r))),
            final(self).cs.levels() == old(self).cs.levels().push(false),
            final(self).spi == old(self).spi,
    {
        let r = self.cs.set_low();
        self.log = Ghost(self.log@.push(BusEvent::Select(pin_outcome(r))));
        r
    }

    /// Drives the line high and records it.
    fn deselect(&mut self) -> (r: Result<(), CS::Error>)
        ensures
            final(self).log@ == old(self).log@.push(BusEvent::Deselect(pin_outcome(r))),
            final(self).cs.levels() == old(self).cs.levels().push(true),
            final(self).spi == old(self).spi,
    {
        let r = self.cs.set_high();
        self.log = Ghost(self.log@.push(BusEvent::Deselect(pin_outcome(r))));
        r
    }

    /// Writes `words` to the bus and records it.
    fn write_words(&mut self, words: &[u8]) -> (r: Result<(), SPI::Error>)
        ensures
            final(self).log@ == old(self).log@.push(BusEvent::Write(words@, spi_outcome(r))),
            final(self).spi.sent() == old(self).spi.sent().push(words@),
            final(self).cs == old(self).cs,
    {
        let r = self.spi.write(words);
        self.log = Ghost(self.log@.push(BusEvent::Write(words@, spi_outcome(r))));
        r
    }

    /// Transfers `words` in place over the bus and records it.
    fn transfer_words(&mut self, words: &mut [u8]) -> (r: Result<(), SPI::Error>)
        ensures
            final(self).log@ == old(self).log@.push(
                BusEvent::Transfer(old(words)@, final(words)@, spi_outcome(r)),
            ),
            final(self).spi.sent() == old(self).spi.sent().push(old(words)@),
            final(words)@.len() == old(words)@.len(),
            final(self).cs == old(self).cs,
    {
        let ghost filler = words@;
        let r = self.spi.transfer(words);
        self.log = Ghost(self.log@.push(BusEvent::Transfer(filler, words@, spi_outcome(r))));
        r
    }
}

impl<SPI: SpiBus + Default, CS: ChipSelect + Default> Default for SpiInterface<SPI, CS> {
    /// A default bus and line; nothing is sent.
    fn default() -> (r: Self)
        ensures
            r.bus_log().len() == 0,
    {
        SpiInterface::new(SPI::default(), CS::default())
    }
}

impl<SPI: SpiBus, CS: ChipSelect> Sealed for SpiInterface<SPI, CS> {

}

impl<SPI: SpiBus, CS: ChipSelect> ReadWrite for SpiInterface<SPI, CS> {
    type Error = ExchangeError<SPI, CS>;

    closed spec fn bus_log(&self) -> Seq<BusEvent<ExchangeError<SPI, CS>>> {
        self.log@
    }

    closed spec fn bus_sent(&self) -> Seq<Seq<u8>> {
        self.spi.sent()
    }

    closed spec fn line_levels(&self) -> Seq<bool> {
        self.cs.levels()
    }

    open spec fn is_bus_error(e: ExchangeError<SPI, CS>) -> bool {
        e is Spi
    }

    open spec fn is_pin_error(e: ExchangeError<SPI, CS>) -> bool {
        e is Pin
    }

    fn write_read(&mut self, write_payload: &[u8], read_payload: &mut [u8]) -> (r: Result<
        (),
        ExchangeError<SPI, CS>,
    >) {
        let ghost start = self.log@;
        let selected = self.select();
        match selected {
            Err(e) => {
                proof {
                    reveal_with_fuel(first_failure, 2);
                    assert(events_since(start, self.log@) =~= seq![self.log@.last()]);
                }
                return Err(Error::Pin(e));
            },
            Ok(()) => {},
        }
        let result = match self.write_words(write_payload) {
            Err(e) => Err(Error::Spi(e)),
            Ok(()) => match self.transfer_words(read_payload) {
                Err(e) => Err(Error::Spi(e)),
                Ok(()) => Ok(()),
            },
        };
        let released = self.deselect();
        let r = match result {
            Err(e) => Err(e),
            Ok(()) => match released {
                Err(e) => Err(Error::Pin(e)),
                Ok(()) => Ok(()),
            },
        };
        proof {
            reveal_with_fuel(first_failure, 5);
            let ops = events_since(start, self.log@);
            if ops.len() == 3 {
                assert(ops =~= seq![ops[0], ops[1], ops[2]]);
                assert(ops.drop_first() =~= seq![ops[1], ops[2]]);
            } else {
                assert(ops =~= seq![ops[0], ops[1], ops[2], ops[3]]);
                assert(ops.drop_first() =~= seq![ops[1], ops[2], ops[3]]);
                assert(ops.drop_first().drop_first() =~= seq![ops[2], ops[3]]);
            }
        }
        r
    }
}

} // verus!
