//! Integer side of PCM handling: how each native sample format maps onto
//! the unit range, the fixed output rate, and time measured in samples.

use vstd::prelude::*;

verus! {

/// Rate, in Hz, of every sample that leaves the decoder.
pub const OUTPUT_RATE: u32 = 48000;

pub const NANOS_PER_SEC: u64 = 1000000000;

/// Native sample formats that a decoder can hand out.
#[derive(Clone, Copy, Debug, PartialEq, Eq, Structural)]
pub enum SampleFormat {
    U8,
    U16,
    U24,
    U32,
    S8,
    S16,
    S24,
    S32,
    F32,
    F64,
}

pub open spec fn two_pow(n: nat) -> nat
    decreases n,
{
    if n == 0 {
        1
    } else {
        2 * two_pow((n - 1) as nat)
    }
}

/// Width of an integer format; floating formats have none.
pub open spec fn spec_integer_bits(f: SampleFormat) -> Option<nat> {
    match f {
        SampleFormat::U8 | SampleFormat::S8 => Some(8),
        SampleFormat::U16 | SampleFormat::S16 => Some(16),
        SampleFormat::U24 | SampleFormat::S24 => Some(24),
        SampleFormat::U32 | SampleFormat::S32 => Some(32),
        SampleFormat::F32 | SampleFormat::F64 => None,
    }
}

pub open spec fn is_unsigned(f: SampleFormat) -> bool {
    f is U8 || f is U16 || f is U24 || f is U32
}

/// The values that a raw sample of an integer format can take.
pub open spec fn raw_in_range(f: SampleFormat, raw: int) -> bool {
    match spec_integer_bits(f) {
        Some(n) => if is_unsigned(f) {
            0 <= raw < two_pow(n)
        } else {
            -two_pow((n - 1) as nat) <= raw < two_pow((n - 1) as nat)
        },
        None => false,
    }
}

/// A raw integer sample as the fraction `numerator / denominator` of full
/// scale, in [-1, 1): unsigned N-bit `v` is `v / 2^(N-1) - 1`, signed
/// N-bit `v` is `v / 2^(N-1)`.
pub open spec fn spec_unit_fraction(f: SampleFormat, raw: int) -> (int, int) {
    let n = spec_integer_bits(f).unwrap();
    let half = two_pow((n - 1) as nat) as int;
    if is_unsigned(f) {
        (raw - half, half)
    } else {
        (raw, half)
    }
}

proof fn lemma_two_pow_monotone(a: nat, b: nat)
    requires
        a <= b,
    ensures
        two_pow(a) <= two_pow(b),
    decreases b,
{
    if a < b {
        lemma_two_pow_monotone(a, (b - 1) as nat);
    }
}

proof fn lemma_two_pow_31()
    ensures
        two_pow(31) == 0x8000_0000,
{
    reveal_with_fuel(two_pow, 32);
}

/// Width in bits of an integer format, `None` for the floating formats.
pub fn integer_bits(f: SampleFormat) -> (r: Option<u32>)
    ensures
        r matches Some(b) ==> spec_integer_bits(f) == Some(b as nat),
        r is None <==> spec_integer_bits(f) is None,
{
    match f {
        SampleFormat::U8 | SampleFormat::S8 => Some(8),
        SampleFormat::U16 | SampleFormat::S16 => Some(16),
        SampleFormat::U24 | SampleFormat::S24 => Some(24),
        SampleFormat::U32 | SampleFormat::S32 => Some(32),
        SampleFormat::F32 | SampleFormat::F64 => None,
    }
}

/// `2^(bits - 1)`: the magnitude that maps to 1.0 for a `bits`-wide format.
pub fn full_scale(bits: u32) -> (r: u64)
    requires
        1 <= bits <= 32,
    ensures
        r == two_pow((bits - 1) as nat),
{
    let mut r: u64 = 1;
    let mut i: u32 = 0;
    while i < bits - 1
        invariant
            i <= bits - 1,
            bits <= 32,
            r == two_pow(i as nat),
        decreases bits - 1 - i,
    {
        proof {
            lemma_two_pow_monotone(i as nat, 31);
            lemma_two_pow_31();
        }
        r = r * 2;
        i = i + 1;
    }
    r
}

/// A raw sample of an integer format as a fraction of full scale; `None`
/// for the floating formats, which pass through as they are, and for a raw
/// value outside the format's range.
pub fn unit_fraction(f: SampleFormat, raw: i64) -> (r: Option<(i64, u64)>)
    ensures
        r is None <==> !raw_in_range(f, raw as int),
        r matches Some(p) ==> (p.0 as int, p.1 as int) == spec_unit_fraction(f, raw as int),
{
    match integer_bits(f) {
        None => None,
        Some(bits) => {
            let half = full_scale(bits);
            proof {
                lemma_two_pow_monotone((bits - 1) as nat, 31);
                lemma_two_pow_31();
            }
            let unsigned = match f {
                SampleFormat::U8 | SampleFormat::U16 | SampleFormat::U24 | SampleFormat::U32 => true,
                _ => false,
            };
            if unsigned {
                if raw < 0 || raw >= 2 * half as i64 {
                    return None;
                }
                Some((raw - half as i64, half))
            } else {
                if raw < -(half as i64) || raw >= half as i64 {
                    return None;
                }
                Some((raw, half))
            }
        },
    }
}

/// The rate to decode at: the track's declared rate, else the output rate.
pub fn native_rate(declared: Option<u32>) -> (r: u32)
    ensures
        r == match declared {
            Some(x) => x,
            None => OUTPUT_RATE,
        },
{
    match declared {
        Some(x) => x,
        None => OUTPUT_RATE,
    }
}

/// A stream needs resampling exactly when its rate is not the output rate.
pub fn needs_resampling(native: u32) -> (r: bool)
    ensures
        r == (native != OUTPUT_RATE),
{
    native != OUTPUT_RATE
}

pub open spec fn spec_frames_to_nanos(frames: nat, rate: nat) -> nat
    recommends
        rate > 0,
{
    frames * (NANOS_PER_SEC as nat) / rate
}

/// Length in nanoseconds, rounded down, of `frames` frames at `rate` Hz.
pub fn frames_to_nanos(frames: u64, rate: u64) -> (r: u128)
    requires
        rate > 0,
    ensures
        r == spec_frames_to_nanos(frames as nat, rate as nat),
{
    let f = frames as u128;
    proof {
        assert(f * (NANOS_PER_SEC as u128) <= 0xffff_ffff_ffff_ffffu128 * 1000000000u128)
            by (nonlinear_arith)
            requires
                f <= 0xffff_ffff_ffff_ffffu128,
        ;
    }
    f * (NANOS_PER_SEC as u128) / (rate as u128)
}

/// Time a decoded block of `samples` output samples over `channels`
/// channels advances playback: `samples / (OUTPUT_RATE * channels)` s.
pub fn block_nanos(samples: u64, channels: u32) -> (r: u128)
    requires
        channels > 0,
    ensures
        r == spec_frames_to_nanos(samples as nat, OUTPUT_RATE as nat * channels as nat),
{
    let rate = OUTPUT_RATE as u64 * channels as u64;
    assert(rate > 0) by (nonlinear_arith)
        requires
            rate == 48000 * channels,
            channels > 0,
    ;
    frames_to_nanos(samples, rate)
}

/// Duration of a track whose frame count is known, at its native rate.
pub fn track_nanos(total_frames: Option<u64>, rate: u32) -> (r: Option<u128>)
    ensures
        r == match total_frames {
            Some(n) => if rate > 0 {
                Some(spec_frames_to_nanos(n as nat, rate as nat) as u128)
            } else {
                None::<u128>
            },
            None => None,
        },
{
    match total_frames {
        Some(n) => if rate > 0 {
            Some(frames_to_nanos(n, rate as u64))
        } else {
            None
        },
        None => None,
    }
}

} // verus!
