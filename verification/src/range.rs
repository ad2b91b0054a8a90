//! Input ranges of the ADS8681 and their RANGE_SEL codes.
//!
//! Bipolar ranges give a signed (two's complement) output code, unipolar
//! ranges an unsigned one. With the usual 4.096 V reference the ranges span
//! ±12.288 V down to ±2.56 V, and 0..12.288 V down to 0..5.12 V.
use vstd::prelude::*;

verus! {

/// Input range configurations of the ADS8681.
///
/// The variants carry no explicit discriminants: `range as u16` gives the
/// variant's position, not its RANGE_SEL code. `value()` gives the code.
#[derive(Debug, Clone, Copy, PartialEq, Eq)]
pub enum InputRange {
    /// Bipolar ±3 × Vref (±12.288 V with a 4.096 V reference).
    BipolarThreeVref,
    /// Bipolar ±2.5 × Vref (±10.24 V).
    BipolarTwoPointFiveVref,
    /// Bipolar ±1.5 × Vref (±6.144 V).
    BipolarOnePointFiveVref,
    /// Bipolar ±1.25 × Vref (±5.12 V).
    BipolarOnePointTwoFiveVref,
    /// Bipolar ±0.625 × Vref (±2.56 V).
    BipolarZeroPointSixTwoFiveVref,
    /// Unipolar 0 to 3 × Vref (0 to 12.288 V).
    UnipolarThreeVref,
    /// Unipolar 0 to 2.5 × Vref (0 to 10.24 V).
    UnipolarTwoPointFiveVref,
    /// Unipolar 0 to 1.5 × Vref (0 to 6.144 V).
    UnipolarOnePointFiveVref,
    /// Unipolar 0 to 1.25 × Vref (0 to 5.12 V).
    UnipolarOnePointTwoFiveVref,
}

impl InputRange {
    /// The RANGE_SEL code of each range.
    pub open spec fn spec_value(self) -> u16 {
        match self {
            InputRange::BipolarThreeVref => 0b0000,
            InputRange::BipolarTwoPointFiveVref => 0b0001,
            InputRange::BipolarOnePointFiveVref => 0b0010,
            InputRange::BipolarOnePointTwoFiveVref => 0b0011,
            InputRange::BipolarZeroPointSixTwoFiveVref => 0b0100,
            InputRange::UnipolarThreeVref => 0b1000,
            InputRange::UnipolarTwoPointFiveVref => 0b1001,
            InputRange::UnipolarOnePointFiveVref => 0b1010,
            InputRange::UnipolarOnePointTwoFiveVref => 0b1011,
        }
    }

    /// The five bipolar ranges.
    pub open spec fn spec_is_bipolar(self) -> bool {
        ||| self == InputRange::BipolarThreeVref
        ||| self == InputRange::BipolarTwoPointFiveVref
        ||| self == InputRange::BipolarOnePointFiveVref
        ||| self == InputRange::BipolarOnePointTwoFiveVref
        ||| self == InputRange::BipolarZeroPointSixTwoFiveVref
    }

    /// The range's name, as a multiple of Vref.
    pub open spec fn spec_name(self) -> Seq<char> {
        match self {
            InputRange::BipolarThreeVref => "±3×Vref"@,
            InputRange::BipolarTwoPointFiveVref => "±2.5×Vref"@,
            InputRange::BipolarOnePointFiveVref => "±1.5×Vref"@,
            InputRange::BipolarOnePointTwoFiveVref => "±1.25×Vref"@,
            InputRange::BipolarZeroPointSixTwoFiveVref => "±0.625×Vref"@,
            InputRange::UnipolarThreeVref => "0-3×Vref"@,
            InputRange::UnipolarTwoPointFiveVref => "0-2.5×Vref"@,
            InputRange::UnipolarOnePointFiveVref => "0-1.5×Vref"@,
            InputRange::UnipolarOnePointTwoFiveVref => "0-1.25×Vref"@,
        }
    }

    /// Get the range value as a u16 for writing to the RANGE_SEL register.
    #[verifier::when_used_as_spec(spec_value)]
    pub fn value(self) -> (r: u16)
        ensures
            r == self.spec_value(),
    {
        match self {
            InputRange::BipolarThreeVref => 0b0000,
            InputRange::BipolarTwoPointFiveVref => 0b0001,
            InputRange::BipolarOnePointFiveVref => 0b0010,
            InputRange::BipolarOnePointTwoFiveVref => 0b0011,
            InputRange::BipolarZeroPointSixTwoFiveVref => 0b0100,
            InputRange::UnipolarThreeVref => 0b1000,
            InputRange::UnipolarTwoPointFiveVref => 0b1001,
            InputRange::UnipolarOnePointFiveVref => 0b1010,
            InputRange::UnipolarOnePointTwoFiveVref => 0b1011,
        }
    }

    /// Check if this range is bipolar (signed output).
    #[verifier::when_used_as_spec(spec_is_bipolar)]
    pub fn is_bipolar(self) -> (r: bool)
        ensures
            r == self.spec_is_bipolar(),
    {
        match self {
            InputRange::BipolarThreeVref
            | InputRange::BipolarTwoPointFiveVref
            | InputRange::BipolarOnePointFiveVref
            | InputRange::BipolarOnePointTwoFiveVref
            | InputRange::BipolarZeroPointSixTwoFiveVref => true,
            _ => false,
        }
    }

    /// Check if this range is unipolar (unsigned output).
    pub fn is_unipolar(self) -> (r: bool)
        ensures
            r == !self.spec_is_bipolar(),
    {
        !self.is_bipolar()
    }

    /// Get the range name as a string.
    pub fn name(self) -> (r: &'static str)
        ensures
            r@ == self.spec_name(),
    {
        match self {
            InputRange::BipolarThreeVref => "±3×Vref",
            InputRange::BipolarTwoPointFiveVref => "±2.5×Vref",
            InputRange::BipolarOnePointFiveVref => "±1.5×Vref",
            InputRange::BipolarOnePointTwoFiveVref => "±1.25×Vref",
            InputRange::BipolarZeroPointSixTwoFiveVref => "±0.625×Vref",
            InputRange::UnipolarThreeVref => "0-3×Vref",
            InputRange::UnipolarTwoPointFiveVref => "0-2.5×Vref",
            InputRange::UnipolarOnePointFiveVref => "0-1.5×Vref",
            InputRange::UnipolarOnePointTwoFiveVref => "0-1.25×Vref",
        }
    }

    /// Try to create an InputRange from a register value: the range whose
    /// code is the low four bits of `value`, or `None` when no range has
    /// that code.
    pub fn from_register_value(value: u16) -> (r: Option<Self>)
        ensures
            r == range_with_code((value % 16) as int),
            forall|rg: InputRange| (r == Some(rg)) <==> rg.value() == value % 16,
    {
        let code = value & 0x0F;
        assert(code == value % 16) by (bit_vector)
            requires
                code == value & 0x0F,
        ;
        proof {
            lemma_range_with_code(code as int);
        }
        match code {
            0b0000 => Some(InputRange::BipolarThreeVref),
            0b0001 => Some(InputRange::BipolarTwoPointFiveVref),
            0b0010 => Some(InputRange::BipolarOnePointFiveVref),
            0b0011 => Some(InputRange::BipolarOnePointTwoFiveVref),
            0b0100 => Some(InputRange::BipolarZeroPointSixTwoFiveVref),
            0b1000 => Some(InputRange::UnipolarThreeVref),
            0b1001 => Some(InputRange::UnipolarTwoPointFiveVref),
            0b1010 => Some(InputRange::UnipolarOnePointFiveVref),
            0b1011 => Some(InputRange::UnipolarOnePointTwoFiveVref),
            _ => None,
        }
    }
}

/// The range whose RANGE_SEL code is `code`, if any.
pub open spec fn range_with_code(code: int) -> Option<InputRange> {
    if code == 0b0000 {
        Some(InputRange::BipolarThreeVref)
    } else if code == 0b0001 {
        Some(InputRange::BipolarTwoPointFiveVref)
    } else if code == 0b0010 {
        Some(InputRange::BipolarOnePointFiveVref)
    } else if code == 0b0011 {
        Some(InputRange::BipolarOnePointTwoFiveVref)
    } else if code == 0b0100 {
        Some(InputRange::BipolarZeroPointSixTwoFiveVref)
    } else if code == 0b1000 {
        Some(InputRange::UnipolarThreeVref)
    } else if code == 0b1001 {
        Some(InputRange::UnipolarTwoPointFiveVref)
    } else if code == 0b1010 {
        Some(InputRange::UnipolarOnePointFiveVref)
    } else if code == 0b1011 {
        Some(InputRange::UnipolarOnePointTwoFiveVref)
    } else {
        None
    }
}

/// `range_with_code` inverts `value`: it gives the range with that code,
/// and nothing where no range has it.
pub proof fn lemma_range_with_code(code: int)
    ensures
        forall|rg: InputRange| (range_with_code(code) == Some(rg)) <==> rg.value() == code,
{
    assert forall|rg: InputRange| (range_with_code(code) == Some(rg)) <==> rg.value() == code by {
        match rg {
            InputRange::BipolarThreeVref => {},
            InputRange::BipolarTwoPointFiveVref => {},
            InputRange::BipolarOnePointFiveVref => {},
            InputRange::BipolarOnePointTwoFiveVref => {},
            InputRange::BipolarZeroPointSixTwoFiveVref => {},
            InputRange::UnipolarThreeVref => {},
            InputRange::UnipolarTwoPointFiveVref => {},
            InputRange::UnipolarOnePointFiveVref => {},
            InputRange::UnipolarOnePointTwoFiveVref => {},
        }
    }
}

/// Reading back the code of a range gives that range: decoding a RANGE_SEL
/// code inverts `value`, and no two ranges share a code.
pub proof fn lemma_range_code_roundtrip(r: InputRange, s: InputRange)
    ensures
        range_with_code(r.value() as int) == Some(r),
        r.value() == s.value() ==> r == s,
{
    lemma_range_with_code(r.value() as int);
}

/// Every code fits the four bits of RANGE_MASK, and bit 3 of the code is the
/// unipolar flag: a range is bipolar exactly when its code is below 8.
pub proof fn lemma_range_code_bits(r: InputRange)
    ensures
        r.value() < 16,
        r.is_bipolar() <==> r.value() < 8,
{
}

/// The RANGE_SEL codes are the datasheet's: ±3, ±2.5, ±1.5, ±1.25 and
/// ±0.625 × Vref are 0b0000 to 0b0100; 0..3, 0..2.5, 0..1.5 and 0..1.25 × Vref
/// are 0b1000 to 0b1011. Decoding each code gives back its range.
pub proof fn lemma_datasheet_range_codes()
    ensures
        InputRange::BipolarThreeVref.value() == 0b0000,
        InputRange::BipolarTwoPointFiveVref.value() == 0b0001,
        InputRange::BipolarOnePointFiveVref.value() == 0b0010,
        InputRange::BipolarOnePointTwoFiveVref.value() == 0b0011,
        InputRange::BipolarZeroPointSixTwoFiveVref.value() == 0b0100,
        InputRange::UnipolarThreeVref.value() == 0b1000,
        InputRange::UnipolarTwoPointFiveVref.value() == 0b1001,
        InputRange::UnipolarOnePointFiveVref.value() == 0b1010,
        InputRange::UnipolarOnePointTwoFiveVref.value() == 0b1011,
        range_with_code(0b0000) == Some(InputRange::BipolarThreeVref),
        range_with_code(0b0001) == Some(InputRange::BipolarTwoPointFiveVref),
        range_with_code(0b0010) == Some(InputRange::BipolarOnePointFiveVref),
        range_with_code(0b0011) == Some(InputRange::BipolarOnePointTwoFiveVref),
        range_with_code(0b0100) == Some(InputRange::BipolarZeroPointSixTwoFiveVref),
        range_with_code(0b1000) == Some(InputRange::UnipolarThreeVref),
        range_with_code(0b1001) == Some(InputRange::UnipolarTwoPointFiveVref),
        range_with_code(0b1010) == Some(InputRange::UnipolarOnePointFiveVref),
        range_with_code(0b1011) == Some(InputRange::UnipolarOnePointTwoFiveVref),
{
}

/// The five ±k × Vref ranges are the bipolar ones (signed output codes),
/// and the four 0..k × Vref ranges are unipolar (unsigned output codes).
pub proof fn lemma_polarity_of_ranges()
    ensures
        InputRange::BipolarThreeVref.is_bipolar(),
        InputRange::BipolarTwoPointFiveVref.is_bipolar(),
        InputRange::BipolarOnePointFiveVref.is_bipolar(),
        InputRange::BipolarOnePointTwoFiveVref.is_bipolar(),
        InputRange::BipolarZeroPointSixTwoFiveVref.is_bipolar(),
        !InputRange::UnipolarThreeVref.is_bipolar(),
        !InputRange::UnipolarTwoPointFiveVref.is_bipolar(),
        !InputRange::UnipolarOnePointFiveVref.is_bipolar(),
        !InputRange::UnipolarOnePointTwoFiveVref.is_bipolar(),
{
}

} // verus!
