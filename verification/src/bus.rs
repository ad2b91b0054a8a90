//! The SPI bus as the driver sees it: an embedded-hal `SpiDevice` together
//! with the record of every exchange made through it.
//!
//! The record can only grow through `Bus::transfer`, whose contract says
//! that it appends the frame handed to `SpiDevice::transfer` and what came
//! back: the bytes read, or the kind of error the bus reported.
use vstd::prelude::*;
use embedded_hal::spi::{ErrorKind, SpiDevice};
use embedded_hal::spi::Error as _;

verus! {

/// The kind of a failed SPI transfer, as embedded-hal classifies it.
#[verifier::external_type_specification]
#[verifier::external_body]
pub struct ExSpiErrorKind(ErrorKind);

/// One SPI exchange: the four bytes handed to the bus, and the four bytes
/// read back, or the kind of error the bus reported.
pub struct Transfer {
    pub sent: Seq<u8>,
    pub reply: Result<Seq<u8>, ErrorKind>,
}

/// An SPI device and the record of the exchanges made through it.
pub struct Bus<SPI> {
    spi: SPI,
    log: Ghost<Seq<Transfer>>,
}

impl<SPI> Bus<SPI> {
    /// Every exchange made through this bus, oldest first.
    pub closed spec fn log(&self) -> Seq<Transfer> {
        self.log@
    }

    /// The SPI device.
    pub closed spec fn device(&self) -> SPI {
        self.spi
    }
}

impl<SPI: SpiDevice> Bus<SPI> {
    /// A bus over `spi` through which nothing has been exchanged yet.
    pub(crate) fn new(spi: SPI) -> (r: Self)
        ensures
            r.device() == spi,
            r.log() == Seq::<Transfer>::empty(),
    {
        Bus { spi, log: Ghost(Seq::empty()) }
    }

    /// Performs one SPI transaction with `SpiDevice::transfer` of
    /// embedded-hal: hands it the four bytes of `tx` to write and returns the
    /// four bytes it read meanwhile; when the bus fails, returns the failure
    /// as embedded-hal's `ErrorKind` (what `spi::Error::kind` gives of the
    /// bus's own error). The contract claims that exactly this exchange is
    /// appended to the record; nothing is claimed of the bytes read, nor of
    /// when or how the bus fails, which come from the device and the bus.
    #[verifier::external_body]
    pub(crate) fn transfer(&mut self, tx: &[u8; 4]) -> (r: Result<[u8; 4], ErrorKind>)
        ensures
            final(self).log() == old(self).log().push(
                Transfer {
                    sent: tx@,
                    reply: match r {
                        Ok(rx) => Ok(rx@),
                        Err(k) => Err(k),
                    },
                },
            ),
    {
        let mut rx = [0u8; 4];
        match self.spi.transfer(&mut rx, tx) {
            Ok(()) => Ok(rx),
            Err(e) => Err(e.kind()),
        }
    }

    /// Gives back the SPI device.
    pub(crate) fn release(self) -> (r: SPI)
        ensures
            r == self.device(),
    {
        self.spi
    }
}

} // verus!
