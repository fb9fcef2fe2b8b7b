//! The W25 device: exchanges built from fixed command opcodes.
use vstd::prelude::*;

use crate::interface::{ChipSelect, ReadWrite, SpiBus, SpiInterface};
use crate::protocol::{
    blames_layer, events_since, exchange_levels, exchange_sent, first_failure, is_exchange,
    received, BusEvent,
};

verus! {

/// Opcode of the command that reads the JEDEC identification.
pub const JEDEC_ID: u8 = 0x9F;

/// A W25 serial flash memory behind an exchange interface.
#[derive(Debug)]
pub struct W25<DI> {
    iface: DI,
}

impl<SPI: SpiBus, CS: ChipSelect> W25<SpiInterface<SPI, CS>> {
    /// Creates a W25Q64 device that owns the bus and its chip-select line,
    /// as they are. Nothing is sent.
    pub fn new_w25q64(spi: SPI, cs: CS) -> (r: Self)
        ensures
            r.spi() == spi,
            r.cs() == cs,
            r.bus_log().len() == 0,
    {
        W25 { iface: SpiInterface::new(spi, cs) }
    }

    /// The bus the device holds.
    pub closed spec fn spi(&self) -> SPI {
        self.iface.spi()
    }

    /// The chip-select line the device holds.
    pub closed spec fn cs(&self) -> CS {
        self.iface.cs()
    }
}

impl<SPI: SpiBus + Default, CS: ChipSelect + Default> Default for W25<SpiInterface<SPI, CS>> {
    /// A device on a default bus and line; nothing is sent.
    fn default() -> (r: Self)
        ensures
            r.bus_log().len() == 0,
    {
        W25::new_w25q64(SPI::default(), CS::default())
    }
}

impl<DI: ReadWrite> W25<DI> {
    /// Every operation performed on the device's bus and chip-select line,
    /// oldest first.
    pub closed spec fn bus_log(&self) -> Seq<BusEvent<DI::Error>> {
        self.iface.bus_log()
    }

    /// The words handed to the device's bus so far, one entry per write or
    /// transfer.
    pub closed spec fn bus_sent(&self) -> Seq<Seq<u8>> {
        self.iface.bus_sent()
    }

    /// The levels the device's chip-select line was driven to so far
    /// (`true` for high).
    pub closed spec fn line_levels(&self) -> Seq<bool> {
        self.iface.line_levels()
    }

    /// Reads the three-byte JEDEC identification (manufacturer, memory type,
    /// capacity): one exchange that writes the opcode and reads three bytes.
    /// The bytes are returned as the device sent them; an error of the
    /// exchange is returned unchanged.
    pub fn get_jedec_id(&mut self) -> (r: Result<[u8; 3], DI::Error>)
        ensures
            old(self).bus_log().is_prefix_of(final(self).bus_log()),
            is_exchange(
                seq![JEDEC_ID],
                seq![0u8, 0u8, 0u8],
                events_since(old(self).bus_log(), final(self).bus_log()),
            ),
            blames_layer(
                events_since(old(self).bus_log(), final(self).bus_log()),
                |e: DI::Error| DI::is_bus_error(e),
                |e: DI::Error| DI::is_pin_error(e),
            ),
            final(self).bus_sent() == old(self).bus_sent() + exchange_sent(
                seq![JEDEC_ID],
                seq![0u8, 0u8, 0u8],
                events_since(old(self).bus_log(), final(self).bus_log()),
            ),
            final(self).line_levels() == old(self).line_levels() + exchange_levels(
                events_since(old(self).bus_log(), final(self).bus_log()),
            ),
            match r {
                Ok(id) => {
                    &&& first_failure(events_since(old(self).bus_log(), final(self).bus_log())) is Ok
                    &&& id@ == received(events_since(old(self).bus_log(), final(self).bus_log()))
                },
                Err(e) => first_failure(events_since(old(self).bus_log(), final(self).bus_log()))
                    == Err::<(), DI::Error>(e),
            },
    {
        let mut id: [u8; 3] = [0; 3];
        let command: [u8; 1] = [JEDEC_ID];
        assert(command@ =~= seq![JEDEC_ID]);
        assert(id@ =~= seq![0u8, 0u8, 0u8]);
        match self.iface.write_read(&command, &mut id) {
            Ok(()) => Ok(id),
            Err(e) => Err(e),
        }
    }
}

} // verus!
