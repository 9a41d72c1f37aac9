//! Layout of the spectrum view: which transform bins feed which bar, which
//! bins count as bass, when a new beat may fire, and how a hue sector
//! places the colour components.

use vstd::prelude::*;

verus! {

/// Samples per transform frame.
pub const FFT_SIZE: usize = 2048;

/// Magnitude bins kept from each frame: the lower half of the transform.
pub const BIN_COUNT: usize = 1024;

/// Bars shown by the view.
pub const BAR_COUNT: usize = 32;

/// Shortest time between two beats.
pub const BEAT_COOLDOWN_NANOS: u128 = 200000000;

/// Bins `[start, end)` averaged into bar `bar`: each bar spans
/// `bins / bars` bins and the last one also takes the remainder.
pub open spec fn spec_bar_range(bar: nat, bars: nat, bins: nat) -> (nat, nat) {
    let w = bins / bars;
    (bar * w, if bar + 1 == bars { bins } else { (bar + 1) * w })
}

proof fn lemma_mul_le(a: nat, b: nat, w: nat)
    requires
        a <= b,
    ensures
        a * w <= b * w,
{
    assert(a * w <= b * w) by (nonlinear_arith)
        requires
            a <= b,
    ;
}

proof fn lemma_width_fits(bars: nat, bins: nat)
    requires
        bars > 0,
    ensures
        bars * (bins / bars) <= bins,
{
    assert(bars * (bins / bars) <= bins) by (nonlinear_arith)
        requires
            bars > 0,
    ;
}

/// The bars tile the bins: the first starts at bin 0, each ends where the
/// next starts, none runs backwards, and the last ends at the final bin.
pub proof fn lemma_bars_tile_bins(bars: nat, bins: nat)
    requires
        bars > 0,
    ensures
        spec_bar_range(0, bars, bins).0 == 0,
        spec_bar_range((bars - 1) as nat, bars, bins).1 == bins,
        forall|b: nat|
            b + 1 < bars ==> #[trigger] spec_bar_range(b, bars, bins).1 == spec_bar_range(
                b + 1,
                bars,
                bins,
            ).0,
        forall|b: nat|
            b < bars ==> #[trigger] spec_bar_range(b, bars, bins).0 <= spec_bar_range(
                b,
                bars,
                bins,
            ).1,
{
    let w = bins / bars;
    assert(0 * w == 0) by (nonlinear_arith);
    lemma_width_fits(bars, bins);
    assert forall|b: nat| b < bars implies #[trigger] spec_bar_range(b, bars, bins).0
        <= spec_bar_range(b, bars, bins).1 by {
        lemma_mul_le(b, b + 1, w);
        lemma_mul_le(b, bars, w);
        assert(bars * w == w * bars) by (nonlinear_arith);
    }
}

/// Bins `[start, end)` of bar `bar` out of `bars` bars over `bins` bins.
pub fn bar_range(bar: usize, bars: usize, bins: usize) -> (r: (usize, usize))
    requires
        bar < bars,
    ensures
        (r.0 as nat, r.1 as nat) == spec_bar_range(bar as nat, bars as nat, bins as nat),
        r.0 <= r.1 <= bins,
{
    let w = bins / bars;
    proof {
        lemma_width_fits(bars as nat, bins as nat);
        lemma_mul_le(bar as nat, (bar + 1) as nat, w as nat);
        lemma_mul_le((bar + 1) as nat, bars as nat, w as nat);
        assert(bars * w == w * bars) by (nonlinear_arith);
    }
    let start = bar * w;
    let end = if bar + 1 == bars {
        bins
    } else {
        (bar + 1) * w
    };
    (start, end)
}

/// Number of low bins summed for bass energy: the lowest eighth.
pub fn bass_bins(bins: usize) -> (r: usize)
    ensures
        r == bins / 8,
{
    bins / 8
}

/// The bar whose range holds bin `bin`.
pub fn bar_of_bin(bin: usize, bars: usize, bins: usize) -> (r: usize)
    requires
        0 < bars <= bins,
        bin < bins,
    ensures
        r < bars,
        spec_bar_range(r as nat, bars as nat, bins as nat).0 <= bin,
        bin < spec_bar_range(r as nat, bars as nat, bins as nat).1,
{
    let w = bins / bars;
    assert(w > 0) by (nonlinear_arith)
        requires
            w == bins / bars,
            0 < bars <= bins,
    ;
    let q = bin / w;
    let r = if q < bars - 1 {
        q
    } else {
        bars - 1
    };
    proof {
        assert(q * w <= bin && bin < (q + 1) * w) by (nonlinear_arith)
            requires
                q == bin / w,
                w > 0,
        ;
        lemma_mul_le(r as nat, q as nat, w as nat);
    }
    r
}

/// Nearest transform bin to a tone of `hz` Hz at the output rate.
pub fn bin_of_frequency(hz: u32) -> (r: usize)
    ensures
        r == (hz as nat * FFT_SIZE as nat + 24000) / 48000,
{
    assert((hz as u64) * 2048 <= 0xffff_ffffu64 * 2048) by (nonlinear_arith);
    let n = (hz as u64) * (FFT_SIZE as u64) + 24000;
    assert(n / 48000 <= 0xffff_ffff) by (nonlinear_arith)
        requires
            n <= 0xffff_ffffu64 * 2048 + 24000,
    ;
    (n / 48000) as usize
}

/// Whether a bass spike may count as a new beat, given the time since the
/// last one.
pub fn beat_may_fire(elapsed_nanos: u128) -> (r: bool)
    ensures
        r == (elapsed_nanos >= BEAT_COOLDOWN_NANOS),
{
    elapsed_nanos >= BEAT_COOLDOWN_NANOS
}

/// Placement of the chroma `c`, the second component `x` and zero in
/// (red, green, blue) for each 60-degree sector of the hue circle; sectors
/// from the sixth on are placed as the sixth.
pub open spec fn spec_sector_rgb<T>(sector: nat, c: T, x: T, zero: T) -> (T, T, T) {
    if sector == 0 {
        (c, x, zero)
    } else if sector == 1 {
        (x, c, zero)
    } else if sector == 2 {
        (zero, c, x)
    } else if sector == 3 {
        (zero, x, c)
    } else if sector == 4 {
        (x, zero, c)
    } else {
        (c, zero, x)
    }
}

/// Places the colour components of one hue sector.
pub fn sector_rgb<T: Copy>(sector: u32, c: T, x: T, zero: T) -> (r: (T, T, T))
    ensures
        r == spec_sector_rgb(sector as nat, c, x, zero),
{
    if sector == 0 {
        (c, x, zero)
    } else if sector == 1 {
        (x, c, zero)
    } else if sector == 2 {
        (zero, c, x)
    } else if sector == 3 {
        (zero, x, c)
    } else if sector == 4 {
        (x, zero, c)
    } else {
        (c, zero, x)
    }
}

} // verus!
