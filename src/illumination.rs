//! Frames and the illumination check.
//!
//! The brightness of a frame is the mean of its 8-bit samples. For a frame
//! whose channels are interleaved, every channel holds the same number of
//! samples, so this is also the mean of the per-channel means.
use vstd::prelude::*;
use crate::config::BRIGHTNESS_SCALE;

verus! {

/// The sum of the first `n` samples.
pub open spec fn sample_sum(s: Seq<u8>, n: nat) -> int
    decreases n,
{
    if n == 0 {
        0
    } else {
        sample_sum(s, (n - 1) as nat) + s[n - 1]
    }
}

/// Whether a mean of `sum / count` (zero for no samples) is at or above
/// `min_brightness / BRIGHTNESS_SCALE`.
pub open spec fn bright_enough_spec(sum: int, count: int, min_brightness: int) -> bool {
    if count == 0 {
        0 >= min_brightness
    } else {
        sum * BRIGHTNESS_SCALE >= min_brightness * count
    }
}

proof fn lemma_sample_sum_bound(s: Seq<u8>, n: nat)
    requires
        n <= s.len(),
    ensures
        0 <= sample_sum(s, n) <= 255 * n,
    decreases n,
{
    if n > 0 {
        lemma_sample_sum_bound(s, (n - 1) as nat);
    }
}

/// One captured image: interleaved 8-bit samples, row by row.
#[derive(Debug)]
pub struct Frame {
    pub pixels: Vec<u8>,
    pub width: u32,
    pub height: u32,
    pub channels: u32,
}

/// The brightness of a frame, kept as the exact mean `sum / count`.
#[derive(Debug)]
pub struct Brightness {
    sum: u128,
    count: u128,
}

impl Brightness {
    #[verifier::type_invariant]
    spec fn inv(&self) -> bool {
        &&& self.count <= usize::MAX
        &&& self.sum <= 255 * self.count
    }

    /// The sum of the samples.
    pub closed spec fn sum_spec(&self) -> int {
        self.sum as int
    }

    /// The number of samples.
    pub closed spec fn count_spec(&self) -> int {
        self.count as int
    }

    /// The brightness of the samples `pixels`.
    pub closed spec fn of(pixels: Seq<u8>) -> Brightness {
        Brightness { sum: sample_sum(pixels, pixels.len()) as u128, count: pixels.len() as u128 }
    }

    /// The brightness of a frame with no samples.
    pub fn zero() -> (r: Brightness)
        ensures
            r == Brightness::of(Seq::empty()),
            r.sum_spec() == 0,
            r.count_spec() == 0,
    {
        Brightness { sum: 0, count: 0 }
    }

    /// A copy.
    pub fn duplicate(&self) -> (r: Brightness)
        ensures
            r == *self,
    {
        proof {
            use_type_invariant(self);
        }
        Brightness { sum: self.sum, count: self.count }
    }

    /// Whether the mean is at or above `min_brightness / BRIGHTNESS_SCALE`.
    pub open spec fn at_least(&self, min_brightness: int) -> bool {
        bright_enough_spec(self.sum_spec(), self.count_spec(), min_brightness)
    }

    /// The sum of the samples.
    pub fn sum(&self) -> (r: u128)
        ensures
            r == self.sum_spec(),
    {
        self.sum
    }

    /// The number of samples.
    pub fn count(&self) -> (r: u128)
        ensures
            r == self.count_spec(),
    {
        self.count
    }
}

/// The brightness of `frame`: the mean of all its samples.
pub fn assess_brightness(frame: &Frame) -> (r: Brightness)
    ensures
        r == Brightness::of(frame.pixels@),
        r.sum_spec() == sample_sum(frame.pixels@, frame.pixels@.len()),
        r.count_spec() == frame.pixels@.len(),
{
    let n = frame.pixels.len();
    let mut sum: u128 = 0;
    let mut i: usize = 0;
    while i < n
        invariant
            n == frame.pixels@.len(),
            i <= n,
            sum == sample_sum(frame.pixels@, i as nat),
        decreases n - i,
    {
        proof {
            lemma_sample_sum_bound(frame.pixels@, i as nat);
        }
        sum = sum + frame.pixels[i] as u128;
        i = i + 1;
    }
    proof {
        lemma_sample_sum_bound(frame.pixels@, n as nat);
    }
    Brightness { sum, count: n as u128 }
}

/// The illumination check: whether `score` is at or above `min_brightness`, in
/// thousandths of a pixel level. Equal passes.
pub fn is_bright_enough(score: &Brightness, min_brightness: u32) -> (r: bool)
    ensures
        r == score.at_least(min_brightness as int),
{
    proof {
        use_type_invariant(score);
    }
    if score.count == 0 {
        min_brightness == 0
    } else {
        let scale = BRIGHTNESS_SCALE as u128;
        assert(score.sum * 1000 <= 255 * 1000 * usize::MAX) by (nonlinear_arith)
            requires
                score.sum <= 255 * score.count,
                score.count <= usize::MAX,
        ;
        assert(min_brightness * score.count <= 0xffff_ffff * usize::MAX) by (nonlinear_arith)
            requires
                min_brightness <= 0xffff_ffff,
                score.count <= usize::MAX,
        ;
        score.sum * scale >= (min_brightness as u128) * score.count
    }
}

} // verus!
