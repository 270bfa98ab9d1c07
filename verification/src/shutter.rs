//! Rolling-shutter timing: how long the sensor takes to read one frame, and
//! the moment at which a given scanline of a frame was captured.

use crate::frames::{PixelPoint, SUBPIXEL_ONE};
use vstd::arithmetic::div_mod::lemma_fundamental_div_mod_converse;
use vstd::prelude::*;

verus! {

/// Readout time, in microseconds, of a sensor that exposes all lines at once.
pub const GLOBAL_SHUTTER_READOUT: u32 = 10;

/// Half a second in microseconds, times the thousand by which frame rates
/// are scaled: divided by a frame rate it gives half the frame period.
pub const HALF_PERIOD_SCALE: u32 = 500_000_000;

/// What the synchronization needs to know of the lens.
#[derive(Clone, Copy, Debug, PartialEq, Eq)]
pub struct LensProfile {
    pub global_shutter: bool,
}

/// The camera model of one run. `frame_readout_time` is in microseconds,
/// zero where it is not known; `scaled_fps` is the frame rate in frames per
/// thousand seconds.
#[derive(Clone, Copy, Debug, PartialEq, Eq)]
pub struct ComputeParams {
    pub frame_readout_time: u32,
    pub scaled_fps: u32,
    pub lens: LensProfile,
}

impl ComputeParams {
    /// A readout time can be had from the model: it is given, or the lens
    /// has a global shutter, or there is a frame rate to derive it from.
    pub open spec fn valid(&self) -> bool {
        self.lens.global_shutter || self.frame_readout_time != 0 || self.scaled_fps != 0
    }

    /// The readout time in effect, in microseconds: that of a global shutter
    /// where the lens has one, else the given time where it is not zero,
    /// else half the frame period.
    pub open spec fn readout_time(&self) -> int {
        if self.lens.global_shutter {
            GLOBAL_SHUTTER_READOUT as int
        } else if self.frame_readout_time != 0 {
            self.frame_readout_time as int
        } else {
            HALF_PERIOD_SCALE as int / self.scaled_fps as int
        }
    }

    pub fn is_valid(&self) -> (ok: bool)
        ensures
            ok == self.valid(),
    {
        self.lens.global_shutter || self.frame_readout_time != 0 || self.scaled_fps != 0
    }

    pub fn effective_readout_time(&self) -> (readout: u32)
        requires
            self.valid(),
        ensures
            readout == self.readout_time(),
            self.lens.global_shutter ==> readout == GLOBAL_SHUTTER_READOUT,
    {
        if self.lens.global_shutter {
            GLOBAL_SHUTTER_READOUT
        } else if self.frame_readout_time != 0 {
            self.frame_readout_time
        } else {
            HALF_PERIOD_SCALE / self.scaled_fps
        }
    }
}

/// How long after the first line of a frame the line at height `y` is read,
/// in nanoseconds, rounded down: the share `y / height` of the readout time.
/// `readout` is in microseconds, `y` in units of `1 / SUBPIXEL_ONE` pixel,
/// `height` in pixels.
pub open spec fn scanline_delay(readout: int, y: int, height: int) -> int
    recommends
        height > 0,
{
    (readout * 1000 * y) / (height * SUBPIXEL_ONE)
}

/// The moment, in nanoseconds, at which the line at height `y` was captured
/// in a frame whose first line was captured at `ts` microseconds.
pub open spec fn adjusted_time(ts: int, readout: int, y: int, height: int) -> int
    recommends
        height > 0,
{
    ts * 1000 + scanline_delay(readout, y, height)
}

/// The capture moments of a list of points of one frame.
pub open spec fn point_times(ts: int, points: Seq<PixelPoint>, readout: int, height: int) -> Seq<
    i128,
>
    recommends
        height > 0,
{
    Seq::new(points.len(), |i: int| adjusted_time(ts, readout, points[i].y as int, height) as i128)
}

/// The quotient of `a` by `d` rounded down, for a positive divisor.
fn div_floor(a: i128, d: i128) -> (q: i128)
    requires
        d > 0,
        a > i128::MIN,
    ensures
        q == a as int / d as int,
{
    if a >= 0 {
        a / d
    } else {
        let n: i128 = -a;
        let q: i128 = n / d;
        let r: i128 = n % d;
        proof {
            assert(n as int == (n as int / d as int) * d as int + n as int % d as int) by {
                vstd::arithmetic::div_mod::lemma_fundamental_div_mod(n as int, d as int);
            }
        }
        if r == 0 {
            proof {
                assert(a as int == (-q) * d + 0) by (nonlinear_arith)
                    requires
                        a as int == -(n as int),
                        n as int == q * d + 0,
                ;
                lemma_fundamental_div_mod_converse(a as int, d as int, -(q as int), 0);
            }
            -q
        } else {
            proof {
                assert(a as int == (-q - 1) * d + (d - r)) by (nonlinear_arith)
                    requires
                        a as int == -(n as int),
                        n as int == q * d + r,
                ;
                lemma_fundamental_div_mod_converse(a as int, d as int, -(q as int) - 1, d - r);
            }
            -q - 1
        }
    }
}

/// Bounds on the delay of one line, from the ranges of the machine types.
proof fn lemma_delay_bounds(readout: u32, y: i32, height: u32)
    requires
        height > 0,
    ensures
        -0x200_0000_0000_0000_0000 <= readout * 1000 * y <= 0x200_0000_0000_0000_0000,
        1 <= height * SUBPIXEL_ONE <= 0x1_0000_0000_0000,
        -0x200_0000_0000_0000_0000 <= scanline_delay(readout as int, y as int, height as int)
            <= 0x200_0000_0000_0000_0000,
{
    let n = readout * 1000 * y;
    let d = height * SUBPIXEL_ONE;
    assert(-0x200_0000_0000_0000_0000 <= n <= 0x200_0000_0000_0000_0000) by (nonlinear_arith)
        requires
            n == readout * 1000 * y,
            0 <= readout <= 0xffff_ffff,
            -0x8000_0000 <= y <= 0x7fff_ffff,
    ;
    assert(1 <= d <= 0x1_0000_0000_0000) by (nonlinear_arith)
        requires
            d == height * 65536,
            1 <= height <= 0xffff_ffff,
    ;
    vstd::arithmetic::div_mod::lemma_fundamental_div_mod(n, d);
    vstd::arithmetic::div_mod::lemma_mod_bound(n, d);
    assert(-0x200_0000_0000_0000_0000 <= n / d <= 0x200_0000_0000_0000_0000) by (nonlinear_arith)
        requires
            n == d * (n / d) + n % d,
            0 <= n % d < d,
            d >= 1,
            -0x200_0000_0000_0000_0000 <= n <= 0x200_0000_0000_0000_0000,
    ;
}

/// The moment, in nanoseconds, at which a point at height `y` was captured
/// in a frame of `height` lines that starts at `ts` microseconds and takes
/// `readout` microseconds to read.
pub fn adjusted_timestamp(ts: i64, readout: u32, y: i32, height: u32) -> (time: i128)
    requires
        height > 0,
    ensures
        time == adjusted_time(ts as int, readout as int, y as int, height as int),
{
    proof {
        lemma_delay_bounds(readout, y, height);
    }
    let scaled: i128 = readout as i128 * 1000;
    let numerator: i128 = scaled * (y as i128);
    let lines: i128 = height as i128 * (SUBPIXEL_ONE as i128);
    let delay: i128 = div_floor(numerator, lines);
    ts as i128 * 1000 + delay
}

/// The capture moments of every point of one frame, in the order of the
/// points.
pub fn timestamps_of(ts: i64, points: &Vec<PixelPoint>, readout: u32, height: u32) -> (times: Vec<
    i128,
>)
    requires
        height > 0,
    ensures
        times@ == point_times(ts as int, points@, readout as int, height as int),
{
    let mut times: Vec<i128> = Vec::new();
    let mut i: usize = 0;
    while i < points.len()
        invariant
            i <= points.len(),
            height > 0,
            times@.len() == i,
            forall|k: int|
                0 <= k < i ==> times@[k] == adjusted_time(
                    ts as int,
                    readout as int,
                    points@[k].y as int,
                    height as int,
                ),
        decreases points.len() - i,
    {
        times.push(adjusted_timestamp(ts, readout, points[i].y, height));
        i += 1;
    }
    assert(times@ =~= point_times(ts as int, points@, readout as int, height as int));
    times
}

} // verus!
