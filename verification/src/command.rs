//! SPI command definitions for the ADS8681 ADC.
//!
//! Every exchange with the device is a 4-byte frame:
//! - byte 0: the 7-bit command opcode, then bit 8 of the register address
//! - byte 1: address bits 7..0
//! - byte 2: data MSB
//! - byte 3: data LSB
//!
//! Responses are 4 bytes too; conversion results and register values come
//! back in the upper 16 bits.
use vstd::prelude::*;

verus! {

/// SPI command opcodes of the ADS8681.
///
/// The variants carry no explicit discriminants: `cmd as u8` gives the
/// variant's position, not its opcode. `opcode()` gives the opcode.
#[derive(Debug, Clone, Copy, PartialEq, Eq)]
pub enum Command {
    /// No operation: triggers a conversion, or completes a register read.
    Nop,
    /// Clear half-word: clears the register to 0x0000.
    ClearHword,
    /// Read half-word: the data comes back in the next frame.
    ReadHword,
    /// Read full word.
    Read,
    /// Write the full 16-bit word to a register.
    WriteFull,
    /// Write the most significant byte of a register.
    WriteMs,
    /// Write the least significant byte of a register.
    WriteLs,
    /// Set half-word: sets bits of the register.
    SetHword,
}

impl Command {
    /// The 7-bit opcode of each command, as the datasheet lists it.
    pub open spec fn spec_opcode(self) -> u8 {
        match self {
            Command::Nop => 0b0000000,
            Command::ClearHword => 0b1100000,
            Command::ReadHword => 0b1100100,
            Command::Read => 0b0100100,
            Command::WriteFull => 0b1101000,
            Command::WriteMs => 0b1101001,
            Command::WriteLs => 0b1101010,
            Command::SetHword => 0b1101100,
        }
    }

    /// The commands that change a register.
    pub open spec fn spec_is_write(self) -> bool {
        ||| self == Command::ClearHword
        ||| self == Command::WriteFull
        ||| self == Command::WriteMs
        ||| self == Command::WriteLs
        ||| self == Command::SetHword
    }

    /// The commands that read a register.
    pub open spec fn spec_is_read(self) -> bool {
        self == Command::ReadHword || self == Command::Read
    }

    /// The command's name as the datasheet writes it.
    pub open spec fn spec_name(self) -> Seq<char> {
        match self {
            Command::Nop => "NOP"@,
            Command::ClearHword => "CLEAR_HWORD"@,
            Command::ReadHword => "READ_HWORD"@,
            Command::Read => "READ"@,
            Command::WriteFull => "WRITE_FULL"@,
            Command::WriteMs => "WRITE_MS"@,
            Command::WriteLs => "WRITE_LS"@,
            Command::SetHword => "SET_HWORD"@,
        }
    }

    /// Get the command opcode as a u8.
    #[verifier::when_used_as_spec(spec_opcode)]
    pub fn opcode(self) -> (r: u8)
        ensures
            r == self.spec_opcode(),
    {
        match self {
            Command::Nop => 0b0000000,
            Command::ClearHword => 0b1100000,
            Command::ReadHword => 0b1100100,
            Command::Read => 0b0100100,
            Command::WriteFull => 0b1101000,
            Command::WriteMs => 0b1101001,
            Command::WriteLs => 0b1101010,
            Command::SetHword => 0b1101100,
        }
    }

    /// Check if this command writes to registers.
    #[verifier::when_used_as_spec(spec_is_write)]
    pub fn is_write(self) -> (r: bool)
        ensures
            r == self.spec_is_write(),
    {
        match self {
            Command::ClearHword
            | Command::WriteFull
            | Command::WriteMs
            | Command::WriteLs
            | Command::SetHword => true,
            _ => false,
        }
    }

    /// Check if this command reads from registers.
    #[verifier::when_used_as_spec(spec_is_read)]
    pub fn is_read(self) -> (r: bool)
        ensures
            r == self.spec_is_read(),
    {
        match self {
            Command::ReadHword | Command::Read => true,
            _ => false,
        }
    }

    /// Get the command name as a string.
    pub fn name(self) -> (r: &'static str)
        ensures
            r@ == self.spec_name(),
    {
        match self {
            Command::Nop => "NOP",
            Command::ClearHword => "CLEAR_HWORD",
            Command::ReadHword => "READ_HWORD",
            Command::Read => "READ",
            Command::WriteFull => "WRITE_FULL",
            Command::WriteMs => "WRITE_MS",
            Command::WriteLs => "WRITE_LS",
            Command::SetHword => "SET_HWORD",
        }
    }
}

/// The 4-byte frame that carries `opcode`, the 9-bit address `addr` and the
/// 16-bit `data`: byte 0 holds the opcode above bit 8 of the address.
pub open spec fn frame(opcode: u8, addr: u16, data: u16) -> Seq<u8> {
    seq![
        (2 * opcode + (addr / 256) % 2) as u8,
        (addr % 256) as u8,
        (data / 256) as u8,
        (data % 256) as u8,
    ]
}

/// The 32-bit big-endian word that the first four bytes of `bytes` spell.
pub open spec fn word(bytes: Seq<u8>) -> int {
    bytes[0] * 0x100_0000 + bytes[1] * 0x1_0000 + bytes[2] * 0x100 + bytes[3]
}

/// The 16-bit value in the upper half of a response: its first two bytes.
pub open spec fn upper_half(bytes: Seq<u8>) -> int {
    bytes[0] * 0x100 + bytes[1]
}

/// Encode a command into a 4-byte SPI packet.
pub fn encode_command(cmd: Command, addr: u16, data: u16) -> (r: [u8; 4])
    ensures
        r@ == frame(cmd.opcode(), addr, data),
{
    let op = cmd.opcode();
    assert(op < 128);
    let b0: u8 = (op << 1) | (((addr >> 8) & 0x01) as u8);
    let b1: u8 = (addr & 0xFF) as u8;
    let b2: u8 = ((data >> 8) & 0xFF) as u8;
    let b3: u8 = (data & 0xFF) as u8;
    assert(b0 == 2 * op + (addr / 256) % 2) by (bit_vector)
        requires
            op < 128,
            b0 == (op << 1) | (((addr >> 8) & 0x01) as u8),
    ;
    assert(b1 == addr % 256 && b2 == data / 256 && b3 == data % 256) by (bit_vector)
        requires
            b1 == (addr & 0xFF) as u8,
            b2 == ((data >> 8) & 0xFF) as u8,
            b3 == (data & 0xFF) as u8,
    ;
    let r = [b0, b1, b2, b3];
    assert(r@ =~= frame(op, addr, data));
    r
}

/// Decode a 4-byte SPI response into a 32-bit value.
pub fn decode_response(response: &[u8; 4]) -> (r: u32)
    ensures
        r == word(response@),
{
    let b0 = response[0];
    let b1 = response[1];
    let b2 = response[2];
    let b3 = response[3];
    let r = ((b0 as u32) << 24) | ((b1 as u32) << 16) | ((b2 as u32) << 8) | (b3 as u32);
    assert(r == b0 * 0x100_0000 + b1 * 0x1_0000 + b2 * 0x100 + b3) by (bit_vector)
        requires
            r == ((b0 as u32) << 24) | ((b1 as u32) << 16) | ((b2 as u32) << 8) | (b3 as u32),
    ;
    r
}

/// Extract ADC data from a response: the upper 16 bits.
pub fn extract_adc_data(response: u32) -> (r: u16)
    ensures
        r == response / 0x1_0000,
{
    let r = (response >> 16) as u16;
    assert(r == response / 0x1_0000) by (bit_vector)
        requires
            r == (response >> 16) as u16,
    ;
    r
}

/// Extract register data from a response: the upper 16 bits, as returned
/// after a NOP that follows a READ_HWORD.
pub fn extract_register_data(response: u32) -> (r: u16)
    ensures
        r == response / 0x1_0000,
{
    let r = (response >> 16) as u16;
    assert(r == response / 0x1_0000) by (bit_vector)
        requires
            r == (response >> 16) as u16,
    ;
    r
}

/// Every opcode fits seven bits, so it survives the shift into byte 0 of a
/// frame, and no two commands share an opcode.
pub proof fn lemma_opcodes(a: Command, b: Command)
    ensures
        a.opcode() < 128,
        a.opcode() == b.opcode() ==> a == b,
        !(a.is_write() && a.is_read()),
{
}

/// A frame loses nothing: the opcode, the 9-bit address and the data can be
/// read back from its four bytes.
pub proof fn lemma_frame_fields(cmd: Command, addr: u16, data: u16)
    requires
        addr < 512,
    ensures
        ({
            let f = frame(cmd.opcode(), addr, data);
            &&& f.len() == 4
            &&& f[0] / 2 == cmd.opcode()
            &&& (f[0] % 2) * 256 + f[1] == addr
            &&& f[2] * 256 + f[3] == data
        }),
{
    let op = cmd.opcode() as int;
    let a = addr as int;
    let d = data as int;
    assert(op < 128);
    assert((2 * op + (a / 256) % 2) / 2 == op && (2 * op + (a / 256) % 2) % 2 == (a / 256) % 2)
        by (nonlinear_arith)
        requires
            0 <= op < 128,
            0 <= a < 512,
    ;
    assert(((a / 256) % 2) * 256 + a % 256 == a) by (nonlinear_arith)
        requires
            0 <= a < 512,
    ;
    assert((d / 256) * 256 + d % 256 == d && d / 256 < 256) by (nonlinear_arith)
        requires
            0 <= d < 0x1_0000,
    ;
}

/// The upper half of the word that a 4-byte reply spells is its first two
/// bytes: `extract_adc_data` and `extract_register_data` of
/// `decode_response` of a reply give `upper_half` of it.
pub proof fn lemma_upper_half_of_word(bytes: Seq<u8>)
    requires
        bytes.len() == 4,
    ensures
        word(bytes) / 0x1_0000 == upper_half(bytes),
        word(bytes) < 0x1_0000_0000,
{
    let b0 = bytes[0] as int;
    let b1 = bytes[1] as int;
    let b2 = bytes[2] as int;
    let b3 = bytes[3] as int;
    assert((b0 * 0x100_0000 + b1 * 0x1_0000 + b2 * 0x100 + b3) / 0x1_0000 == b0 * 0x100 + b1
        && b0 * 0x100_0000 + b1 * 0x1_0000 + b2 * 0x100 + b3 < 0x1_0000_0000) by (nonlinear_arith)
        requires
            0 <= b0 < 256,
            0 <= b1 < 256,
            0 <= b2 < 256,
            0 <= b3 < 256,
    ;
}

/// The opcodes are the datasheet's: NOP 0b0000000, CLEAR_HWORD 0b1100000,
/// READ_HWORD 0b1100100, READ 0b0100100, WRITE_FULL 0b1101000,
/// WRITE_MS 0b1101001, WRITE_LS 0b1101010, SET_HWORD 0b1101100; and byte 0
/// of every encoded frame carries the command's opcode above bit 8 of the
/// address.
pub proof fn lemma_datasheet_opcodes(cmd: Command, addr: u16, data: u16)
    ensures
        Command::Nop.opcode() == 0b0000000,
        Command::ClearHword.opcode() == 0b1100000,
        Command::ReadHword.opcode() == 0b1100100,
        Command::Read.opcode() == 0b0100100,
        Command::WriteFull.opcode() == 0b1101000,
        Command::WriteMs.opcode() == 0b1101001,
        Command::WriteLs.opcode() == 0b1101010,
        Command::SetHword.opcode() == 0b1101100,
        frame(cmd.opcode(), addr, data)[0] / 2 == cmd.opcode(),
        frame(cmd.opcode(), addr, data)[0] % 2 == (addr / 256) % 2,
{
    let op = cmd.opcode() as int;
    let a = addr as int;
    assert(op < 128);
    assert((2 * op + (a / 256) % 2) / 2 == op && (2 * op + (a / 256) % 2) % 2 == (a / 256) % 2)
        by (nonlinear_arith)
        requires
            0 <= op < 128,
            0 <= a,
    ;
}

} // verus!
