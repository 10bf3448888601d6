use vstd::prelude::*;

verus! {

/// A display colour, each channel in hundredths (0 to 100) of full
/// intensity; `a` is opacity.
#[derive(Clone, Copy, Debug, PartialEq, Eq, Structural)]
pub struct Rgba {
    pub r: u8,
    pub g: u8,
    pub b: u8,
    pub a: u8,
}

/// An opaque colour from three channels in hundredths.
pub open spec fn opaque(r: u8, g: u8, b: u8) -> Rgba {
    Rgba { r, g, b, a: 100 }
}

/// `channel + amount`, capped at full intensity (100).
pub open spec fn spec_brighten(channel: u8, amount: u8) -> u8 {
    if channel + amount > 100 {
        100
    } else {
        (channel + amount) as u8
    }
}

/// `channel` scaled to `percent` percent, rounded down.
pub open spec fn spec_scale(channel: u8, percent: u8) -> u8 {
    (channel * percent / 100) as u8
}

fn brighten_channel(channel: u8, amount: u8) -> (c: u8)
    ensures
        c == spec_brighten(channel, amount),
{
    if channel as u16 + amount as u16 > 100 {
        100
    } else {
        channel + amount
    }
}

fn scale_channel(channel: u8, percent: u8) -> (c: u8)
    requires
        percent <= 100,
    ensures
        c == spec_scale(channel, percent),
{
    assert(channel as u16 * percent as u16 <= 255 * 100) by (nonlinear_arith)
        requires
            percent <= 100,
    ;
    let scaled: u16 = channel as u16 * percent as u16 / 100;
    assert(scaled <= channel) by (nonlinear_arith)
        requires
            scaled == channel * percent / 100,
            percent <= 100,
    ;
    scaled as u8
}

impl Rgba {
    /// The colour with `amount` hundredths added to each of red, green
    /// and blue, each capped at full intensity; opacity becomes full.
    /// Hovered hero cards use this for their background and border.
    pub fn brightened(self, amount: u8) -> (c: Rgba)
        ensures
            c == opaque(
                spec_brighten(self.r, amount),
                spec_brighten(self.g, amount),
                spec_brighten(self.b, amount),
            ),
    {
        Rgba {
            r: brighten_channel(self.r, amount),
            g: brighten_channel(self.g, amount),
            b: brighten_channel(self.b, amount),
            a: 100,
        }
    }

    /// The colour with red, green and blue scaled to `percent` percent
    /// and full opacity. The cooldown bar uses it to dim the hero's
    /// accent colour while the ability recharges.
    pub fn dimmed(self, percent: u8) -> (c: Rgba)
        requires
            percent <= 100,
        ensures
            c == opaque(
                spec_scale(self.r, percent),
                spec_scale(self.g, percent),
                spec_scale(self.b, percent),
            ),
    {
        Rgba {
            r: scale_channel(self.r, percent),
            g: scale_channel(self.g, percent),
            b: scale_channel(self.b, percent),
            a: 100,
        }
    }
}

/// Brightening adds the amount to a channel but never goes past full
/// intensity: the result is the smaller of `channel + amount` and 100.
pub proof fn lemma_brighten_caps(channel: u8, amount: u8)
    ensures
        spec_brighten(channel, amount) <= 100,
        spec_brighten(channel, amount) <= channel + amount,
        spec_brighten(channel, amount) == 100 || spec_brighten(channel, amount) == channel + amount,
        channel + amount <= 100 ==> spec_brighten(channel, amount) == channel + amount,
{
}

/// Scaling keeps `percent` percent of a channel, rounded down: the result
/// times 100 is at most `channel * percent` and within 100 of it.
pub proof fn lemma_scale_rounds_down(channel: u8, percent: u8)
    requires
        percent <= 100,
    ensures
        spec_scale(channel, percent) * 100 <= channel * percent,
        channel * percent < (spec_scale(channel, percent) + 1) * 100,
        spec_scale(channel, percent) <= channel,
{
    let p = channel * percent;
    assert(p <= 255 * 100) by (nonlinear_arith)
        requires
            p == channel * percent,
            channel <= 255,
            percent <= 100,
    ;
    vstd::arithmetic::div_mod::lemma_fundamental_div_mod(p as int, 100);
    vstd::arithmetic::div_mod::lemma_mod_bound(p as int, 100);
    assert((p / 100) as u8 == p / 100);
    assert(p / 100 <= channel) by (nonlinear_arith)
        requires
            p == channel * percent,
            percent <= 100,
            p == 100 * (p / 100) + p % 100,
            p % 100 >= 0,
    ;
}

} // verus!
