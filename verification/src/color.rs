//! Color codec: the lossy boundary between the scene's internal linear
//! colors and the panel's 8-bit editing representation.
//!
//! The editor's collaborators deal in unit-interval channel values.  The
//! core never does analytic arithmetic on a channel: it only quantizes a
//! channel to eight bits with a floor rule, or rebuilds a channel from
//! eight bits.  A channel is therefore carried as an exact ratio
//! `num / den`, which represents every value the core ever holds and
//! makes the floor rule a statement about integers.

use vstd::arithmetic::div_mod::{
    lemma_div_multiples_vanish, lemma_div_pos_is_pos, lemma_multiply_divide_le,
    lemma_multiply_divide_lt,
};
use vstd::arithmetic::mul::{lemma_mul_inequality, lemma_mul_is_commutative};
use vstd::prelude::*;

verus! {

/// One linear color channel, held as the exact ratio `num / den`.
#[derive(Clone, Copy, PartialEq, Eq, Structural, Debug)]
pub struct Channel {
    pub num: u32,
    pub den: u32,
}

/// A channel is well formed when its ratio lies in the unit interval.
pub open spec fn channel_wf(c: Channel) -> bool {
    0 < c.den && c.num <= c.den
}

/// A linear color: three unit-interval channels.
#[derive(Clone, Copy, PartialEq, Eq, Structural, Debug)]
pub struct LinearColor {
    pub red: Channel,
    pub green: Channel,
    pub blue: Channel,
}

pub open spec fn color_wf(c: LinearColor) -> bool {
    channel_wf(c.red) && channel_wf(c.green) && channel_wf(c.blue)
}

/// The 8-bit editing representation of a color, as the panel's color
/// widget holds it.
#[derive(Clone, Copy, PartialEq, Eq, Structural, Debug)]
pub struct EditColor {
    pub red: u8,
    pub green: u8,
    pub blue: u8,
}

/// The quantization rule applied at every editor boundary: the floor of
/// `channel * 255`.  Deliberately a floor, not round-to-nearest: the rule
/// biases downward, and it is an observable behavior of the editor.
pub open spec fn quantized(c: Channel) -> int {
    (c.num as int * 255) / (c.den as int)
}

/// The channel that the editing value `k` decodes to: `k / 255`.
pub open spec fn channel_of_edit(k: u8) -> Channel {
    Channel { num: k as u32, den: 255 }
}

pub open spec fn edit_of_color(c: LinearColor) -> EditColor {
    EditColor {
        red: quantized(c.red) as u8,
        green: quantized(c.green) as u8,
        blue: quantized(c.blue) as u8,
    }
}

pub open spec fn color_of_edit(e: EditColor) -> LinearColor {
    LinearColor {
        red: channel_of_edit(e.red),
        green: channel_of_edit(e.green),
        blue: channel_of_edit(e.blue),
    }
}

/// The full-bright neutral color: every channel exactly one, written as
/// the channel that the editing value 255 decodes to.
pub open spec fn full_bright() -> LinearColor {
    color_of_edit(EditColor { red: 255, green: 255, blue: 255 })
}

/// Range of the floor rule: a unit-interval channel quantizes into
/// `0 ..= 255`; a channel strictly below one quantizes into `0 ..= 254`;
/// a channel exactly one quantizes to 255.
pub proof fn lemma_quantized_range(c: Channel)
    requires
        channel_wf(c),
    ensures
        0 <= quantized(c) <= 255,
        c.num < c.den ==> quantized(c) <= 254,
        c.num == c.den ==> quantized(c) == 255,
{
    let n = c.num as int;
    let d = c.den as int;
    lemma_div_pos_is_pos(n * 255, d);
    lemma_mul_inequality(n, d, 255);
    lemma_mul_is_commutative(d, 255);
    lemma_multiply_divide_le(n * 255, d, 255);
    if c.num < c.den {
        // n * 255 < d * 255, so the floor of the quotient is below 255.
        vstd::arithmetic::mul::lemma_mul_strict_inequality(n, d, 255);
        lemma_multiply_divide_lt(n * 255, d, 255);
    }
    if c.num == c.den {
        lemma_div_multiples_vanish(255, d);
        lemma_mul_is_commutative(d, 255);
    }
}

/// Decoding an editing value and quantizing it again is the identity:
/// `floor((k / 255) * 255) == k`.
pub proof fn lemma_edit_quantize_identity(k: u8)
    ensures
        channel_wf(channel_of_edit(k)),
        quantized(channel_of_edit(k)) == k,
{
    lemma_div_multiples_vanish(k as int, 255);
    lemma_mul_is_commutative(255, k as int);
}

/// Stability after one quantization: for every well-formed linear color,
/// re-encoding the color rebuilt from its 8-bit editing representation
/// gives back the same 8-bit value.  In particular this holds for every
/// color that is itself the image of a decoded editing value, so the
/// panel's per-frame decode/encode cycle is a fixed point once a color
/// has been quantized.
pub proof fn lemma_requantize_stable(c: LinearColor)
    requires
        color_wf(c),
    ensures
        color_wf(color_of_edit(edit_of_color(c))),
        edit_of_color(color_of_edit(edit_of_color(c))) == edit_of_color(c),
{
    lemma_quantized_range(c.red);
    lemma_quantized_range(c.green);
    lemma_quantized_range(c.blue);
    lemma_edit_quantize_identity(edit_of_color(c).red);
    lemma_edit_quantize_identity(edit_of_color(c).green);
    lemma_edit_quantize_identity(edit_of_color(c).blue);
}

fn quantize_channel(c: Channel) -> (k: u8)
    requires
        channel_wf(c),
    ensures
        k as int == quantized(c),
{
    proof {
        lemma_quantized_range(c);
    }
    ((c.num as u64 * 255) / (c.den as u64)) as u8
}

/// Encode a linear color into its 8-bit editing representation, flooring
/// each channel.
pub fn to_edit(c: &LinearColor) -> (e: EditColor)
    requires
        color_wf(*c),
    ensures
        e == edit_of_color(*c),
{
    proof {
        lemma_quantized_range(c.red);
        lemma_quantized_range(c.green);
        lemma_quantized_range(c.blue);
    }
    EditColor {
        red: quantize_channel(c.red),
        green: quantize_channel(c.green),
        blue: quantize_channel(c.blue),
    }
}

/// Decode an 8-bit editing value into the linear color `k / 255` per
/// channel.
pub fn from_edit(e: EditColor) -> (c: LinearColor)
    ensures
        c == color_of_edit(e),
        color_wf(c),
{
    LinearColor {
        red: Channel { num: e.red as u32, den: 255 },
        green: Channel { num: e.green as u32, den: 255 },
        blue: Channel { num: e.blue as u32, den: 255 },
    }
}

} // verus!
