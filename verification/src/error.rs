//! Error type of the ADS8681 driver.
use vstd::prelude::*;
use vstd::std_specs::convert::FromSpecImpl;

verus! {

/// Errors that can occur during ADS8681 operations.
#[derive(Debug, Clone, Copy, PartialEq, Eq)]
pub enum Error<E> {
    /// SPI communication error from the underlying bus. The driver reports
    /// it as embedded-hal's `ErrorKind`, the kind of the bus's own error
    /// (what `spi::Error::kind` gives), not as that error itself.
    Spi(E),
    /// The device ID read during initialization was not 0x0681.
    InvalidDeviceId,
}

impl<E> From<E> for Error<E> {
    fn from(error: E) -> (r: Self) {
        Error::Spi(error)
    }
}

impl<E> FromSpecImpl<E> for Error<E> {
    open spec fn obeys_from_spec() -> bool {
        true
    }

    open spec fn from_spec(v: E) -> Error<E> {
        Error::Spi(v)
    }
}

} // verus!
