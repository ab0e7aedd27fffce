//! FSK keying on a modem control line: the parameters of a keyer and the
//! frame of line levels that sends one character.
use vstd::prelude::*;
use vstd::arithmetic::power2::{pow2, lemma_pow2_unfold, lemma_pow2_pos, lemma2_to64};
use vstd::arithmetic::div_mod::lemma_mod_breakdown;
use vstd::bits::lemma_u8_shr_is_div;

use crate::text::decimal;
use crate::text::decimal_text;

verus! {

/// The modem control line that carries the FSK signal.
#[derive(Debug, Clone, Copy, PartialEq, Eq, Structural)]
pub enum FskTarget {
    Dtr,
    Rts,
}

/// The length of the stop bit.
#[derive(Debug, Clone, Copy, PartialEq, Eq, Structural)]
pub enum FskStopbit {
    One,
    OneHalf,
    Two,
}

/// How characters are keyed: `data_bits` data bits, least significant
/// first, at `baud` bits per second, followed by a stop bit of the given
/// length, on the `target` line, with the levels flipped when `invert` is
/// set.
#[derive(Debug, Clone, Copy, PartialEq, Eq, Structural)]
pub struct FskParameter {
    pub data_bits: usize,
    pub baud: u16,
    pub stop_bit: FskStopbit,
    pub target: FskTarget,
    pub invert: bool,
}

/// One element of a frame: drive the line to `level`, then hold it for
/// `half_ticks` halves of a bit period.
#[derive(Debug, Clone, Copy, PartialEq, Eq, Structural)]
pub struct FskStep {
    pub level: bool,
    pub half_ticks: u32,
}

/// Bit `b` of `byte`, counted from the least significant bit.
pub open spec fn bit_at(byte: u8, b: nat) -> bool {
    (byte as nat / pow2(b)) % 2 == 1
}

impl FskParameter {
    /// The line level that sends the logical `bit`.
    pub open spec fn level_for(self, bit: bool) -> bool {
        bit != self.invert
    }

    /// The length of the stop bit in halves of a bit period.
    pub open spec fn stop_ticks(self) -> u32 {
        match self.stop_bit {
            FskStopbit::One => 2,
            FskStopbit::OneHalf => 3,
            FskStopbit::Two => 4,
        }
    }

    /// The frame that sends `byte`: a start bit (logical 0), the data bits
    /// from the least significant one, and the stop bit (logical 1).
    pub open spec fn frame_of(self, byte: u8) -> Seq<FskStep> {
        seq![FskStep { level: self.level_for(false), half_ticks: 2 }] + Seq::new(
            self.data_bits as nat,
            |b: int| FskStep { level: self.level_for(bit_at(byte, b as nat)), half_ticks: 2 },
        ) + seq![FskStep { level: self.level_for(true), half_ticks: self.stop_ticks() }]
    }

    /// The line level that sends the logical `bit`.
    pub fn line_level(&self, bit: bool) -> (level: bool)
        ensures
            level == self.level_for(bit),
    {
        bit != self.invert
    }

    /// The level the line rests at between characters: a logical 1.
    pub fn idle_level(&self) -> (level: bool)
        ensures
            level == self.level_for(true),
    {
        self.line_level(true)
    }

    /// The length of the stop bit in halves of a bit period.
    pub fn stop_half_ticks(&self) -> (t: u32)
        ensures
            t == self.stop_ticks(),
    {
        match self.stop_bit {
            FskStopbit::One => 2,
            FskStopbit::OneHalf => 3,
            FskStopbit::Two => 4,
        }
    }

    /// The frame that sends `byte`. Data bits past the eighth do not exist
    /// in a byte, so the parameter holds at most eight.
    pub fn frame(&self, byte: u8) -> (steps: Vec<FskStep>)
        requires
            self.data_bits <= 8,
        ensures
            steps@ == self.frame_of(byte),
    {
        let mut steps: Vec<FskStep> = Vec::new();
        steps.push(FskStep { level: self.line_level(false), half_ticks: 2 });
        let ghost data = Seq::new(
            self.data_bits as nat,
            |b: int| FskStep { level: self.level_for(bit_at(byte, b as nat)), half_ticks: 2 },
        );
        let mut b: usize = 0;
        while b < self.data_bits
            invariant
                b <= self.data_bits <= 8,
                data == Seq::new(
                    self.data_bits as nat,
                    |b: int| FskStep { level: self.level_for(bit_at(byte, b as nat)), half_ticks: 2 },
                ),
                steps@ == seq![FskStep { level: self.level_for(false), half_ticks: 2 }]
                    + data.take(b as int),
            decreases self.data_bits - b,
        {
            let shifted = byte >> (b as u8);
            let bit = (shifted & 1) != 0;
            proof {
                lemma_u8_shr_is_div(byte, b as u8);
                assert((shifted & 1) == shifted % 2) by (bit_vector);
                assert(bit == bit_at(byte, b as nat));
            }
            steps.push(FskStep { level: self.line_level(bit), half_ticks: 2 });
            assert(data.take(b + 1) =~= data.take(b as int).push(data[b as int]));
            assert(steps@ =~= seq![FskStep { level: self.level_for(false), half_ticks: 2 }]
                + data.take(b + 1));
            b = b + 1;
        }
        assert(data.take(b as int) =~= data);
        steps.push(FskStep { level: self.idle_level(), half_ticks: self.stop_half_ticks() });
        steps
    }
}

/// The value that the data bits of `steps` carry: the logical bits of
/// steps `1..=n`, read least significant first.
pub open spec fn data_value(steps: Seq<FskStep>, invert: bool, n: nat) -> nat
    decreases n,
{
    if n == 0 {
        0
    } else {
        data_value(steps, invert, (n - 1) as nat) + (if steps[n as int].level != invert {
            pow2((n - 1) as nat)
        } else {
            0
        })
    }
}

proof fn lemma_data_value_prefix(p: FskParameter, byte: u8, n: nat)
    requires
        n <= p.data_bits,
    ensures
        data_value(p.frame_of(byte), p.invert, n) == byte as nat % pow2(n),
    decreases n,
{
    let steps = p.frame_of(byte);
    if n == 0 {
        lemma2_to64();
    } else {
        let m = (n - 1) as nat;
        lemma_data_value_prefix(p, byte, m);
        assert(steps[n as int].level == p.level_for(bit_at(byte, m)));
        lemma_pow2_unfold(n);
        lemma_pow2_pos(m);
        lemma_mod_breakdown(byte as int, pow2(m) as int, 2);
        assert(pow2(m) * 2 == pow2(n));
        let q = (byte as nat / pow2(m)) % 2;
        assert(q == 0 || q == 1);
        if q == 1 {
            assert(pow2(m) * q == pow2(m));
        } else {
            assert(pow2(m) * q == 0);
        }
    }
}

/// A receiver that reads the data bits of the frame of `byte` back gets
/// `byte`, reduced to the bits the frame carries: keying loses nothing of
/// a character that fits in `data_bits` bits.
pub proof fn lemma_frame_carries_byte(p: FskParameter, byte: u8)
    requires
        p.data_bits <= 8,
    ensures
        data_value(p.frame_of(byte), p.invert, p.data_bits as nat) == byte as nat % pow2(
            p.data_bits as nat,
        ),
        p.data_bits == 8 ==> data_value(p.frame_of(byte), p.invert, 8) == byte,
{
    lemma_data_value_prefix(p, byte, p.data_bits as nat);
    if p.data_bits == 8 {
        lemma2_to64();
    }
}

/// Every frame starts with the start bit at the level of a logical 0, ends
/// with the stop bit at the level of a logical 1, and lasts
/// `2 * (data_bits + 1)` half bit periods plus the stop bit.
pub proof fn lemma_frame_shape(p: FskParameter, byte: u8)
    ensures
        p.frame_of(byte).len() == p.data_bits + 2,
        p.frame_of(byte)[0].level == p.level_for(false),
        p.frame_of(byte).last().level == p.level_for(true),
        p.frame_of(byte).last().half_ticks == p.stop_ticks(),
        forall|i: int| 0 <= i <= p.data_bits ==> #[trigger] p.frame_of(byte)[i].half_ticks == 2,
{
}

/// Inverting the keyer flips every level of every frame and keeps the
/// timing.
pub proof fn lemma_invert_flips_levels(p: FskParameter, byte: u8)
    ensures
        ({
            let q = FskParameter { invert: !p.invert, ..p };
            &&& q.frame_of(byte).len() == p.frame_of(byte).len()
            &&& forall|i: int|
                0 <= i < p.frame_of(byte).len() ==> (#[trigger] q.frame_of(byte)[i]).level
                    != p.frame_of(byte)[i].level && q.frame_of(byte)[i].half_ticks
                    == p.frame_of(byte)[i].half_ticks
        }),
{
}

/// The name of a stop bit length, as it reads in the parameter's text.
pub open spec fn stop_bit_name(s: FskStopbit) -> Seq<char> {
    match s {
        FskStopbit::One => "One"@,
        FskStopbit::OneHalf => "OneHalf"@,
        FskStopbit::Two => "Two"@,
    }
}

/// The name of a keying line, as it reads in the parameter's text.
pub open spec fn target_name(t: FskTarget) -> Seq<char> {
    match t {
        FskTarget::Dtr => "Dtr"@,
        FskTarget::Rts => "Rts"@,
    }
}

/// `true` or `false`.
pub open spec fn bool_text(b: bool) -> Seq<char> {
    if b {
        "true"@
    } else {
        "false"@
    }
}

impl FskParameter {
    /// The parameter as the user sees it: the fields by name, the rate in
    /// bits per second written as a real number.
    pub open spec fn description(self) -> Seq<char> {
        "FskParameter { data_bits: "@ + decimal(self.data_bits as nat) + ", baud: "@ + decimal(
            self.baud as nat,
        ) + ".0, stop_bit: "@ + stop_bit_name(self.stop_bit) + ", target: "@ + target_name(
            self.target,
        ) + ", invert: "@ + bool_text(self.invert) + " }"@
    }

    /// Renders the parameter for the user.
    pub fn describe(&self) -> (s: String)
        ensures
            s@ == self.description(),
    {
        let mut s = String::from_str("FskParameter { data_bits: ");
        let data_bits = decimal_text(self.data_bits);
        s.append(data_bits.as_str());
        s.append(", baud: ");
        let baud = decimal_text(self.baud as usize);
        s.append(baud.as_str());
        s.append(".0, stop_bit: ");
        s.append(
            match self.stop_bit {
                FskStopbit::One => "One",
                FskStopbit::OneHalf => "OneHalf",
                FskStopbit::Two => "Two",
            },
        );
        s.append(", target: ");
        s.append(
            match self.target {
                FskTarget::Dtr => "Dtr",
                FskTarget::Rts => "Rts",
            },
        );
        s.append(", invert: ");
        s.append(if self.invert { "true" } else { "false" });
        s.append(" }");
        s
    }
}

} // verus!
