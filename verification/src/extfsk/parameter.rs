//! The parameter word that the EXTFSK `extfskOpen` call receives.
use vstd::prelude::*;

verus! {

/// The length of the stop bit that the host asks for.
#[derive(Debug, Clone, Copy, PartialEq, Eq, Structural)]
pub enum ExtfskStopbit {
    One,
    OneHalf,
    Two,
}

/// The keying parameters that the host passes when it opens the EXTFSK
/// interface.
#[derive(Debug, Clone, Copy, PartialEq, Eq, Structural)]
pub struct ExtfskParameter {
    pub baud: u16,
    pub stop_bit: ExtfskStopbit,
    pub length: u8,
}

/// The stop bit that a two-bit code stands for; the unused code 3 reads as
/// one stop bit.
pub open spec fn stop_bit_of_code(code: u32) -> ExtfskStopbit {
    if code == 1 {
        ExtfskStopbit::OneHalf
    } else if code == 2 {
        ExtfskStopbit::Two
    } else {
        ExtfskStopbit::One
    }
}

/// The code of a stop bit.
pub open spec fn code_of_stop_bit(s: ExtfskStopbit) -> u32 {
    match s {
        ExtfskStopbit::One => 0,
        ExtfskStopbit::OneHalf => 1,
        ExtfskStopbit::Two => 2,
    }
}

/// The fields of a parameter word: the rate in bits per second in the
/// upper 16 bits, the character length in bits 2 to 5, the stop bit code in
/// bits 0 and 1.
pub open spec fn parsed(parameter: u32) -> ExtfskParameter {
    ExtfskParameter {
        baud: (parameter / 0x10000) as u16,
        stop_bit: stop_bit_of_code(parameter % 4),
        length: ((parameter / 4) % 16) as u8,
    }
}

/// The parameter word that carries `p`; its bits 6 to 15 are clear.
pub open spec fn encoded(p: ExtfskParameter) -> int {
    p.baud * 0x10000 + p.length * 4 + code_of_stop_bit(p.stop_bit)
}

impl ExtfskParameter {
    /// Reads the fields of a parameter word.
    pub fn parse(parameter: u32) -> (p: ExtfskParameter)
        ensures
            p == parsed(parameter),
    {
        let baud = (parameter >> 16) as u16;
        let stop_bit = match parameter & 0b11 {
            0 => ExtfskStopbit::One,
            1 => ExtfskStopbit::OneHalf,
            2 => ExtfskStopbit::Two,
            _ => ExtfskStopbit::One,
        };
        let length = (parameter >> 2 & 0b1111) as u8;
        proof {
            assert(parameter >> 16 == parameter / 0x10000) by (bit_vector);
            assert(parameter & 0b11 == parameter % 4) by (bit_vector);
            assert(parameter >> 2 & 0b1111 == (parameter / 4) % 16) by (bit_vector);
        }
        ExtfskParameter { baud, stop_bit, length }
    }
}

/// Writing a parameter into a word and reading the word back gives the
/// parameter again, for every length that fits in its four bits.
pub proof fn lemma_parse_encoded(p: ExtfskParameter)
    requires
        p.length < 16,
    ensures
        0 <= encoded(p) <= u32::MAX,
        parsed(encoded(p) as u32) == p,
{
    let w = encoded(p);
    let code = code_of_stop_bit(p.stop_bit);
    assert(w / 0x10000 == p.baud) by (nonlinear_arith)
        requires
            w == p.baud * 0x10000 + p.length * 4 + code,
            p.length < 16,
            code < 4,
    ;
    assert(w % 4 == code) by (nonlinear_arith)
        requires
            w == p.baud * 0x10000 + p.length * 4 + code,
            code < 4,
    ;
    assert((w / 4) % 16 == p.length) by (nonlinear_arith)
        requires
            w == p.baud * 0x10000 + p.length * 4 + code,
            p.length < 16,
            code < 4,
    ;
}

/// A word whose bits 6 to 15 are clear and whose stop bit code is in use is
/// the word that carries its own fields.
pub proof fn lemma_encoded_parsed(parameter: u32)
    requires
        (parameter / 64) % 1024 == 0,
        parameter % 4 != 3,
    ensures
        encoded(parsed(parameter)) == parameter,
{
    let p = parsed(parameter);
    assert(code_of_stop_bit(p.stop_bit) == parameter % 4);
    let x = parameter as int;
    assert(x == (x / 0x10000) * 0x10000 + ((x / 4) % 16) * 4 + x % 4) by (nonlinear_arith)
        requires
            (x / 64) % 1024 == 0,
            0 <= x,
    ;
}

} // verus!
