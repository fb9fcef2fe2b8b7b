use vstd::prelude::*;

verus! {

/// What went wrong during an exchange, by the layer that failed.
#[derive(Debug)]
pub enum Error<SpiError, PinError> {
    /// The bus failed to write or to transfer.
    Spi(SpiError),
    /// The chip-select line failed to change state.
    Pin(PinError),
}

} // verus!
