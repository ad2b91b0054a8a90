//! Driver behaviour when the SPI bus fails part way through an operation.

use ads8681_driver::error::Error;
use ads8681_driver::{InputRange, Register, ADS8681};
use embedded_hal::spi::{ErrorKind, ErrorType, Operation, SpiDevice};
use embedded_hal_mock::eh1::digital::Mock as PinMock;

/// A bus that answers `replies` in turn and fails every transfer after them,
/// keeping the frames it was handed.
struct FlakyBus {
    replies: Vec<[u8; 4]>,
    sent: Vec<Vec<u8>>,
}

impl ErrorType for FlakyBus {
    type Error = ErrorKind;
}

impl SpiDevice for FlakyBus {
    fn transaction(&mut self, operations: &mut [Operation<'_, u8>]) -> Result<(), ErrorKind> {
        for op in operations {
            if let Operation::Transfer(read, write) = op {
                self.sent.push(write.to_vec());
                if self.replies.is_empty() {
                    return Err(ErrorKind::Overrun);
                }
                let reply = self.replies.remove(0);
                read.copy_from_slice(&reply);
            }
        }
        Ok(())
    }
}

fn bus(replies: &[[u8; 4]]) -> FlakyBus {
    FlakyBus { replies: replies.to_vec(), sent: Vec::new() }
}

fn sent_frames(adc: ADS8681<FlakyBus, PinMock>) -> Vec<Vec<u8>> {
    let (spi, mut cs) = adc.release();
    cs.done();
    spi.sent
}

#[test]
fn read_register_stops_after_failed_read_command() {
    let mut adc = ADS8681::new(bus(&[]), PinMock::new(&[]));
    assert_eq!(adc.read_register(Register::AlarmHTh), Err(Error::Spi(ErrorKind::Overrun)));
    assert_eq!(sent_frames(adc), vec![vec![0b11001000, 0x24, 0x00, 0x00]]);
}

#[test]
fn read_register_reports_failed_nop() {
    let mut adc = ADS8681::new(bus(&[[0, 0, 0, 0]]), PinMock::new(&[]));
    assert_eq!(adc.read_register(Register::AlarmLTh), Err(Error::Spi(ErrorKind::Overrun)));
    assert_eq!(
        sent_frames(adc),
        vec![vec![0b11001000, 0x28, 0x00, 0x00], vec![0, 0, 0, 0]]
    );
}

#[test]
fn init_reports_bus_error_not_invalid_id() {
    let mut adc = ADS8681::new(bus(&[[0, 0, 0, 0]]), PinMock::new(&[]));
    assert_eq!(adc.init(), Err(Error::Spi(ErrorKind::Overrun)));
    assert_eq!(sent_frames(adc).len(), 2);
}

#[test]
fn write_and_read_adc_report_bus_errors() {
    let mut adc = ADS8681::new(bus(&[]), PinMock::new(&[]));
    assert_eq!(adc.reset(), Err(Error::Spi(ErrorKind::Overrun)));
    assert_eq!(adc.read_adc(), Err(Error::Spi(ErrorKind::Overrun)));
    assert_eq!(
        adc.set_input_range(InputRange::UnipolarThreeVref),
        Err(Error::Spi(ErrorKind::Overrun))
    );
    assert_eq!(adc.get_input_range(), Err(Error::Spi(ErrorKind::Overrun)));
    assert_eq!(
        sent_frames(adc),
        vec![
            vec![0b11010000, 0x04, 0x80, 0x00],
            vec![0, 0, 0, 0],
            vec![0b11010000, 0x14, 0x00, 0x08],
            vec![0b11001000, 0x14, 0x00, 0x00],
        ]
    );
}

#[test]
fn spi_error_converts_into_driver_error() {
    let e: Error<ErrorKind> = Error::from(ErrorKind::ModeFault);
    assert_eq!(e, Error::Spi(ErrorKind::ModeFault));
}
