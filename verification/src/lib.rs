//! Driver for the Texas Instruments ADS8681, a 16-bit, 1 MSPS SAR ADC with
//! programmable bipolar and unipolar input ranges, spoken to over SPI through
//! the embedded-hal traits.
//!
//! - `command`: the SPI command set and the 4-byte frame format
//! - `register`: the register map
//! - `range`: the input ranges and their RANGE_SEL codes
//! - `error`: the driver's error type
//! - `driver`: the `ADS8681` driver itself

pub mod bus;
pub mod command;
pub mod driver;
pub mod error;
pub mod range;
pub mod register;

pub use command::{Command, encode_command, decode_response, extract_adc_data, extract_register_data};
pub use driver::ADS8681;
pub use error::Error;
pub use range::InputRange;
pub use register::{Register, DEVICE_ID, RST_BIT, RANGE_MASK};
