//! Driver for Winbond W25 serial flash memories on an SPI bus.
//!
//! The core is one exchange on the bus: select the chip, write a command,
//! clock the response into a buffer, and deselect the chip on every path
//! that selected it. Every physical operation is recorded in a ghost log, so
//! the contracts state the exact order of operations and which error wins.
pub mod device;
pub mod error;
pub mod interface;
pub mod protocol;
mod sealed;

pub use device::W25;
pub use embedded_hal::spi::{MODE_0, MODE_3};
pub use error::Error;
pub use interface::{ChipSelect, ReadWrite, SpiBus, SpiInterface};
pub use protocol::BusEvent;
