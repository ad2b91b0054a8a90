# ads8681_driver

A verified driver for the Texas Instruments ADS8681, a 16-bit SAR ADC with
programmable input ranges, spoken to over SPI through embedded-hal 1.0.

- `src/command.rs`: command opcodes and the 4-byte SPI frame format
- `src/register.rs`: the register map
- `src/range.rs`: input ranges and their RANGE_SEL codes
- `src/error.rs`: the error type
- `src/bus.rs`: the SPI device with the record of the exchanges made
  through it; only the transfer (a call of `SpiDevice::transfer`) adds to it
- `src/driver.rs`: the `ADS8681` driver; its contracts say which frames each
  operation hands to the bus and how results follow from the replies
- `app/lib.rs`: floating-point voltage conversions and defmt formatting
- `tests/`: mock-SPI driver tests and protocol tests
