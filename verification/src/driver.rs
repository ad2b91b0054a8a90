//! The ADS8681 driver: register and conversion access over an embedded-hal
//! `SpiDevice`.
//!
//! The driver talks through a `Bus`, whose record of exchanges grows only
//! through the trusted transfer: the frame handed to `SpiDevice::transfer`
//! and the bytes it read, or the kind of error it reported. Each operation's
//! contract says which frames it hands to the bus, in which order, and how
//! its result follows from the replies.
use vstd::prelude::*;
use embedded_hal::digital::OutputPin;
use embedded_hal::spi::{ErrorKind, SpiDevice};

use crate::bus::{Bus, Transfer};
use crate::command::{
    Command, encode_command, decode_response, extract_adc_data, extract_register_data, frame,
    word, upper_half, lemma_upper_half_of_word,
};
use crate::error::Error;
use crate::range::{InputRange, range_with_code};
use crate::register::Register;

verus! {

/// `after` is `before` with more exchanges appended.
pub open spec fn extends(before: Seq<Transfer>, after: Seq<Transfer>) -> bool {
    &&& before.len() <= after.len()
    &&& after.take(before.len() as int) == before
}

/// The exchanges appended to `before` in `after`.
pub open spec fn added(before: Seq<Transfer>, after: Seq<Transfer>) -> Seq<Transfer> {
    after.skip(before.len() as int)
}

/// `t` is what an operation made of the bus when it sends the frames of
/// `script` in order and stops at the first exchange that fails.
pub open spec fn follows(t: Seq<Transfer>, script: Seq<Seq<u8>>) -> bool {
    &&& 1 <= t.len() <= script.len()
    &&& forall|i: int| 0 <= i < t.len() ==> #[trigger] t[i].sent == script[i]
    &&& forall|i: int| 0 <= i < t.len() - 1 ==> (#[trigger] t[i]).reply is Ok
    &&& t.len() < script.len() ==> t.last().reply is Err
}

/// Every frame of `script` went out and the last one was answered.
pub open spec fn completed(t: Seq<Transfer>, script: Seq<Seq<u8>>) -> bool {
    t.len() == script.len() && t.last().reply is Ok
}

/// The answer to the last exchange of `t`.
pub open spec fn last_reply(t: Seq<Transfer>) -> Seq<u8> {
    t.last().reply->Ok_0
}

/// The kind of error the bus reported for the last exchange of `t`.
pub open spec fn bus_error(t: Seq<Transfer>) -> ErrorKind {
    t.last().reply->Err_0
}

/// The frame of a NOP: it starts a conversion, or fetches the data that a
/// READ_HWORD asked for.
pub open spec fn nop_frame() -> Seq<u8> {
    frame(Command::Nop.opcode(), 0, 0)
}

/// The frames of a register read: READ_HWORD to the register, then a NOP
/// whose answer carries the value.
pub open spec fn read_script(reg: Register) -> Seq<Seq<u8>> {
    seq![frame(Command::ReadHword.opcode(), reg.address(), 0), nop_frame()]
}

/// The frame of a register write: WRITE_FULL of `value` to the register.
pub open spec fn write_script(reg: Register, value: u16) -> Seq<Seq<u8>> {
    seq![frame(Command::WriteFull.opcode(), reg.address(), value)]
}

/// `r` is the result of an operation that sends `script` and answers the
/// upper half of the last reply.
pub open spec fn read_outcome(
    t: Seq<Transfer>,
    script: Seq<Seq<u8>>,
    r: Result<u16, Error<ErrorKind>>,
) -> bool {
    &&& follows(t, script)
    &&& match r {
        Ok(v) => completed(t, script) && v == upper_half(last_reply(t)),
        Err(e) => !completed(t, script) && e == Error::Spi(bus_error(t)),
    }
}

/// `r` is the result of an operation that sends `script` and succeeds when
/// every frame went out.
pub open spec fn write_outcome(
    t: Seq<Transfer>,
    script: Seq<Seq<u8>>,
    r: Result<(), Error<ErrorKind>>,
) -> bool {
    &&& follows(t, script)
    &&& match r {
        Ok(()) => completed(t, script),
        Err(e) => !completed(t, script) && e == Error::Spi(bus_error(t)),
    }
}

/// The range that a RANGE_SEL value selects; values whose code names no
/// range read as the ±3 × Vref range.
pub open spec fn range_or_default(value: int) -> InputRange {
    match range_with_code(value % 16) {
        Some(r) => r,
        None => InputRange::BipolarThreeVref,
    }
}

/// ADS8681 driver instance.
pub struct ADS8681<SPI, CS> {
    bus: Bus<SPI>,
    cs: CS,
}

impl<SPI, CS> ADS8681<SPI, CS> {
    /// Every exchange made so far, oldest first.
    pub closed spec fn transfers(&self) -> Seq<Transfer> {
        self.bus.log()
    }

    /// The SPI device the driver talks through.
    pub closed spec fn bus(&self) -> SPI {
        self.bus.device()
    }

    /// The chip-select pin the driver holds.
    pub closed spec fn pin(&self) -> CS {
        self.cs
    }
}

impl<SPI, CS> ADS8681<SPI, CS> where SPI: SpiDevice, CS: OutputPin {
    /// Create a new ADS8681 driver instance from an SPI device and a
    /// chip-select pin.
    pub fn new(spi: SPI, cs: CS) -> (r: Self)
        ensures
            r.bus() == spi,
            r.pin() == cs,
            r.transfers() == Seq::<Transfer>::empty(),
    {
        ADS8681 { bus: Bus::new(spi), cs }
    }

    /// Initialize the device and verify communication: reads the device ID
    /// register, which must hold 0x0681.
    pub fn init(&mut self) -> (r: Result<u16, Error<ErrorKind>>)
        ensures
            final(self).pin() == old(self).pin(),
            extends(old(self).transfers(), final(self).transfers()),
            ({
                let t = added(old(self).transfers(), final(self).transfers());
                let script = read_script(Register::DeviceId);
                &&& follows(t, script)
                &&& match r {
                    Ok(id) => completed(t, script) && upper_half(last_reply(t)) == 0x0681 && id
                        == 0x0681,
                    Err(Error::InvalidDeviceId) => completed(t, script) && upper_half(
                        last_reply(t),
                    ) != 0x0681,
                    Err(Error::Spi(k)) => !completed(t, script) && k == bus_error(t),
                }
            }),
    {
        let device_id = match self.read_register(Register::DeviceId) {
            Ok(v) => v,
            Err(e) => return Err(e),
        };
        if device_id != 0x0681 {
            return Err(Error::InvalidDeviceId);
        }
        Ok(device_id)
    }

    /// Read a 16-bit value from the ADC: a NOP starts a conversion and
    /// returns the previous result in the upper half of its answer.
    pub fn read_adc(&mut self) -> (r: Result<u16, Error<ErrorKind>>)
        ensures
            final(self).pin() == old(self).pin(),
            extends(old(self).transfers(), final(self).transfers()),
            read_outcome(added(old(self).transfers(), final(self).transfers()), seq![nop_frame()], r),
    {
        let ghost before = self.transfers();
        let response = match self.send_command(Command::Nop, 0x00, 0x0000) {
            Ok(w) => w,
            Err(e) => {
                proof { lemma_one_more(before, self.transfers(), seq![nop_frame()]); }
                return Err(e);
            },
        };
        proof { lemma_one_more(before, self.transfers(), seq![nop_frame()]); }
        let v = extract_adc_data(response);
        proof { lemma_upper_half_of_word(last_reply(added(before, self.transfers()))); }
        Ok(v)
    }

    /// Set the input range: writes its code to RANGE_SEL.
    pub fn set_input_range(&mut self, range: InputRange) -> (r: Result<(), Error<ErrorKind>>)
        ensures
            final(self).pin() == old(self).pin(),
            extends(old(self).transfers(), final(self).transfers()),
            write_outcome(
                added(old(self).transfers(), final(self).transfers()),
                write_script(Register::RangeSel, range.value()),
                r,
            ),
    {
        self.write_register(Register::RangeSel, range.value())
    }

    /// Get the current input range: reads RANGE_SEL and decodes its low
    /// four bits, falling back to ±3 × Vref when they name no range.
    pub fn get_input_range(&mut self) -> (r: Result<InputRange, Error<ErrorKind>>)
        ensures
            final(self).pin() == old(self).pin(),
            extends(old(self).transfers(), final(self).transfers()),
            ({
                let t = added(old(self).transfers(), final(self).transfers());
                let script = read_script(Register::RangeSel);
                &&& follows(t, script)
                &&& match r {
                    Ok(range) => completed(t, script) && range == range_or_default(
                        upper_half(last_reply(t)),
                    ),
                    Err(e) => !completed(t, script) && e == Error::Spi(bus_error(t)),
                }
            }),
    {
        let value = match self.read_register(Register::RangeSel) {
            Ok(v) => v,
            Err(e) => return Err(e),
        };
        match InputRange::from_register_value(value) {
            Some(range) => Ok(range),
            None => Ok(InputRange::BipolarThreeVref),
        }
    }

    /// Read a 16-bit register value: READ_HWORD to the register, then a NOP
    /// whose answer carries the value in its upper half.
    pub fn read_register(&mut self, reg: Register) -> (r: Result<u16, Error<ErrorKind>>)
        ensures
            final(self).pin() == old(self).pin(),
            extends(old(self).transfers(), final(self).transfers()),
            read_outcome(added(old(self).transfers(), final(self).transfers()), read_script(reg), r),
    {
        let ghost before = self.transfers();
        let ghost script = read_script(reg);
        match self.send_command(Command::ReadHword, reg.address(), 0x0000) {
            Ok(_) => {},
            Err(e) => {
                proof { lemma_one_more(before, self.transfers(), script); }
                return Err(e);
            },
        }
        let ghost middle = self.transfers();
        let response = match self.send_command(Command::Nop, 0x00, 0x0000) {
            Ok(w) => w,
            Err(e) => {
                proof { lemma_two_more(before, middle, self.transfers(), script); }
                return Err(e);
            },
        };
        proof { lemma_two_more(before, middle, self.transfers(), script); }
        let v = extract_register_data(response);
        proof { lemma_upper_half_of_word(last_reply(added(before, self.transfers()))); }
        Ok(v)
    }

    /// Write a 16-bit value to a register with WRITE_FULL.
    pub fn write_register(&mut self, reg: Register, value: u16) -> (r: Result<(), Error<ErrorKind>>)
        ensures
            final(self).pin() == old(self).pin(),
            extends(old(self).transfers(), final(self).transfers()),
            write_outcome(
                added(old(self).transfers(), final(self).transfers()),
                write_script(reg, value),
                r,
            ),
    {
        let ghost before = self.transfers();
        let r = match self.send_command(Command::WriteFull, reg.address(), value) {
            Ok(_) => Ok(()),
            Err(e) => Err(e),
        };
        proof { lemma_one_more(before, self.transfers(), write_script(reg, value)); }
        r
    }

    /// Reset the device: writes the reset bit (0x8000) to RST_PWRCTL.
    pub fn reset(&mut self) -> (r: Result<(), Error<ErrorKind>>)
        ensures
            final(self).pin() == old(self).pin(),
            extends(old(self).transfers(), final(self).transfers()),
            write_outcome(
                added(old(self).transfers(), final(self).transfers()),
                write_script(Register::RstPwrctl, 0x8000),
                r,
            ),
    {
        self.write_register(Register::RstPwrctl, 0x8000)
    }

    /// Set the alarm high threshold.
    pub fn set_alarm_high_threshold(&mut self, threshold: u16) -> (r: Result<(), Error<ErrorKind>>)
        ensures
            final(self).pin() == old(self).pin(),
            extends(old(self).transfers(), final(self).transfers()),
            write_outcome(
                added(old(self).transfers(), final(self).transfers()),
                write_script(Register::AlarmHTh, threshold),
                r,
            ),
    {
        self.write_register(Register::AlarmHTh, threshold)
    }

    /// Set the alarm low threshold.
    pub fn set_alarm_low_threshold(&mut self, threshold: u16) -> (r: Result<(), Error<ErrorKind>>)
        ensures
            final(self).pin() == old(self).pin(),
            extends(old(self).transfers(), final(self).transfers()),
            write_outcome(
                added(old(self).transfers(), final(self).transfers()),
                write_script(Register::AlarmLTh, threshold),
                r,
            ),
    {
        self.write_register(Register::AlarmLTh, threshold)
    }

    /// Get the alarm high threshold.
    pub fn get_alarm_high_threshold(&mut self) -> (r: Result<u16, Error<ErrorKind>>)
        ensures
            final(self).pin() == old(self).pin(),
            extends(old(self).transfers(), final(self).transfers()),
            read_outcome(
                added(old(self).transfers(), final(self).transfers()),
                read_script(Register::AlarmHTh),
                r,
            ),
    {
        self.read_register(Register::AlarmHTh)
    }

    /// Get the alarm low threshold.
    pub fn get_alarm_low_threshold(&mut self) -> (r: Result<u16, Error<ErrorKind>>)
        ensures
            final(self).pin() == old(self).pin(),
            extends(old(self).transfers(), final(self).transfers()),
            read_outcome(
                added(old(self).transfers(), final(self).transfers()),
                read_script(Register::AlarmLTh),
                r,
            ),
    {
        self.read_register(Register::AlarmLTh)
    }

    /// Send a 4-byte command frame to the device and return the 4-byte
    /// answer as a big-endian 32-bit word.
    pub fn send_command(&mut self, cmd: Command, addr: u16, data: u16) -> (r: Result<
        u32,
        Error<ErrorKind>,
    >)
        ensures
            final(self).pin() == old(self).pin(),
            final(self).transfers().len() == old(self).transfers().len() + 1,
            final(self).transfers().drop_last() == old(self).transfers(),
            final(self).transfers().last().sent == frame(cmd.opcode(), addr, data),
            match r {
                Ok(w) => final(self).transfers().last().reply matches Ok(rx) && rx.len() == 4
                    && w == word(rx),
                Err(e) => final(self).transfers().last().reply matches Err(k) && e == Error::Spi(
                    k,
                ),
            },
    {
        let tx = encode_command(cmd, addr, data);
        let r = self.bus.transfer(&tx);
        proof {
            assert(self.bus.log().drop_last() =~= old(self).bus.log());
        }
        match r {
            Ok(rx) => Ok(decode_response(&rx)),
            Err(k) => Err(Error::Spi(k)),
        }
    }

    /// Consume the driver and return the SPI device and the chip-select pin.
    pub fn release(self) -> (r: (SPI, CS))
        ensures
            r == (self.bus(), self.pin()),
    {
        (self.bus.release(), self.cs)
    }

}

/// After one exchange that sends `script`'s first frame, the exchanges since
/// `before` follow `script` when the script ends there or the exchange failed.
proof fn lemma_one_more(before: Seq<Transfer>, after: Seq<Transfer>, script: Seq<Seq<u8>>)
    requires
        script.len() >= 1,
        after.len() == before.len() + 1,
        after.drop_last() == before,
        after.last().sent == script[0],
        script.len() > 1 ==> after.last().reply is Err,
    ensures
        extends(before, after),
        added(before, after) == seq![after.last()],
        follows(added(before, after), script),
{
    assert(after.take(before.len() as int) =~= before);
    assert(added(before, after) =~= seq![after.last()]);
}

/// After two exchanges that send `script`'s two frames, the first of them
/// answered, the exchanges since `before` follow `script`.
proof fn lemma_two_more(
    before: Seq<Transfer>,
    middle: Seq<Transfer>,
    after: Seq<Transfer>,
    script: Seq<Seq<u8>>,
)
    requires
        script.len() == 2,
        middle.len() == before.len() + 1,
        middle.drop_last() == before,
        middle.last().sent == script[0],
        middle.last().reply is Ok,
        after.len() == middle.len() + 1,
        after.drop_last() == middle,
        after.last().sent == script[1],
    ensures
        extends(before, after),
        added(before, after) == seq![middle.last(), after.last()],
        follows(added(before, after), script),
{
    assert(after.take(before.len() as int) =~= before);
    assert(added(before, after) =~= seq![middle.last(), after.last()]);
}

/// What a read gives back of a write: when the device answers the NOP of a
/// register read with the two data bytes that a WRITE_FULL of `value` to
/// that register carried, the read returns `value`.
pub proof fn lemma_register_echo(reg: Register, value: u16, reply: Seq<u8>)
    requires
        reply.len() == 4,
        reply[0] == write_script(reg, value)[0][2],
        reply[1] == write_script(reg, value)[0][3],
    ensures
        upper_half(reply) == value,
{
    crate::register::lemma_register_addresses(reg, reg);
    crate::command::lemma_frame_fields(Command::WriteFull, reg.address(), value);
}

/// What `get_input_range` gives back of `set_input_range`: when the device
/// answers the RANGE_SEL read with the data bytes that setting `range` wrote,
/// the range read is `range`.
pub proof fn lemma_range_echo(range: InputRange, reply: Seq<u8>)
    requires
        reply.len() == 4,
        reply[0] == write_script(Register::RangeSel, range.value())[0][2],
        reply[1] == write_script(Register::RangeSel, range.value())[0][3],
    ensures
        range_or_default(upper_half(reply)) == range,
{
    lemma_register_echo(Register::RangeSel, range.value(), reply);
    crate::range::lemma_range_code_roundtrip(range, range);
    crate::range::lemma_range_code_bits(range);
    assert(upper_half(reply) % 16 == range.value());
}

/// The bytes on the wire: a register read sends READ_HWORD
/// `[0xC8, address, 0x00, 0x00]` then NOP `[0x00, 0x00, 0x00, 0x00]`, and a
/// register write sends WRITE_FULL `[0xD0, address, value MSB, value LSB]`.
/// Setting a range writes its datasheet code to RANGE_SEL (address 0x14).
pub proof fn lemma_wire_frames(reg: Register, value: u16, range: InputRange)
    ensures
        read_script(reg) == seq![
            seq![0xC8u8, reg.address() as u8, 0u8, 0u8],
            seq![0u8, 0u8, 0u8, 0u8],
        ],
        write_script(reg, value) == seq![
            seq![0xD0u8, reg.address() as u8, (value / 256) as u8, (value % 256) as u8],
        ],
        write_script(Register::RangeSel, range.value()) == seq![
            seq![0xD0u8, 0x14u8, 0u8, range.value() as u8],
        ],
{
    crate::register::lemma_register_map(reg);
    crate::range::lemma_range_code_bits(range);
    assert(read_script(reg)[0] =~= seq![0xC8u8, reg.address() as u8, 0u8, 0u8]);
    assert(read_script(reg)[1] =~= seq![0u8, 0u8, 0u8, 0u8]);
    assert(read_script(reg) =~= seq![
        seq![0xC8u8, reg.address() as u8, 0u8, 0u8],
        seq![0u8, 0u8, 0u8, 0u8],
    ]);
    assert(write_script(reg, value)[0] =~= seq![
        0xD0u8,
        reg.address() as u8,
        (value / 256) as u8,
        (value % 256) as u8,
    ]);
    assert(write_script(reg, value) =~= seq![
        seq![0xD0u8, reg.address() as u8, (value / 256) as u8, (value % 256) as u8],
    ]);
    assert(write_script(Register::RangeSel, range.value())[0] =~= seq![
        0xD0u8,
        0x14u8,
        0u8,
        range.value() as u8,
    ]);
    assert(write_script(Register::RangeSel, range.value()) =~= seq![
        seq![0xD0u8, 0x14u8, 0u8, range.value() as u8],
    ]);
}

} // verus!
