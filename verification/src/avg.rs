//! The averaging arithmetic over raw frame memory.
//!
//! A frame is a byte buffer holding fixed-format pixel records of four
//! interleaved channels (red, green, blue, padding), so its byte length is a
//! multiple of four. The functions here compute the per-channel floor average
//! over a whole frame and describe, as a sequence-level specification, the
//! frame that results from painting every pixel with that average.

use vstd::prelude::*;

verus! {

/// One fixed-format pixel record: red, green, blue and a padding channel.
#[derive(Clone, Copy, PartialEq, Eq, Structural, Debug)]
pub struct Pixel {
    pub r: u8,
    pub g: u8,
    pub b: u8,
    pub x: u8,
}

/// Largest frame length, in bytes, that the transform accepts. Generous
/// enough for any negotiated video frame while keeping the channel
/// accumulators comfortably inside `u64`.
pub const MAX_FRAME_BYTES: usize = 0x4000_0000;

/// Number of whole pixel records in a frame of `s.len()` bytes.
pub open spec fn pixel_count(s: Seq<u8>) -> int {
    s.len() as int / 4
}

/// Sum of channel `c` over the first `n` pixel records of frame `s`.
pub open spec fn channel_sum(s: Seq<u8>, c: int, n: int) -> int
    decreases n,
{
    if n <= 0 {
        0
    } else {
        channel_sum(s, c, n - 1) + s[4 * (n - 1) + c]
    }
}

/// The byte of channel `c` in pixel record `k` of frame `s`.
pub open spec fn channel_at(s: Seq<u8>, k: int, c: int) -> u8 {
    s[4 * k + c]
}

/// Floor average of channel `c` over the whole frame `s`.
pub open spec fn channel_avg(s: Seq<u8>, c: int) -> int {
    channel_sum(s, c, pixel_count(s)) / pixel_count(s)
}

/// The frame as it stands after the averaging transform: same length, and
/// every byte holds the floor average of its own channel over the original
/// frame, so every pixel record carries one and the same averaged color.
pub open spec fn transformed(s: Seq<u8>) -> Seq<u8> {
    Seq::new(s.len(), |i: int| channel_avg(s, i % 4) as u8)
}

/// A channel sum over `n` pixels lies between 0 and 255 * n.
pub proof fn lemma_channel_sum_bounds(s: Seq<u8>, c: int, n: int)
    requires
        0 <= n,
    ensures
        0 <= channel_sum(s, c, n) <= 255 * n,
    decreases n,
{
    if n > 0 {
        lemma_channel_sum_bounds(s, c, n - 1);
    }
}

/// A channel average over a non-empty frame is itself a channel value.
pub proof fn lemma_channel_avg_bounds(s: Seq<u8>, c: int)
    requires
        pixel_count(s) > 0,
    ensures
        0 <= channel_avg(s, c) <= 255,
{
    let n = pixel_count(s);
    lemma_channel_sum_bounds(s, c, n);
    vstd::arithmetic::div_mod::lemma_div_is_ordered(0, channel_sum(s, c, n), n);
    vstd::arithmetic::div_mod::lemma_div_is_ordered(channel_sum(s, c, n), 255 * n, n);
    vstd::arithmetic::div_mod::lemma_div_multiples_vanish(255, n);
}

/// In a frame whose channel `c` holds the value `v` in every pixel record,
/// the sum of that channel over `n` pixels is `n * v`.
proof fn lemma_uniform_channel_sum(s: Seq<u8>, c: int, n: int, v: u8)
    requires
        0 <= n,
        forall|k: int| 0 <= k < n ==> #[trigger] channel_at(s, k, c) == v,
    ensures
        channel_sum(s, c, n) == n * v,
    decreases n,
{
    if n > 0 {
        lemma_uniform_channel_sum(s, c, n - 1, v);
        assert(channel_at(s, n - 1, c) == v);
        assert((n - 1) * v + v == n * v) by (nonlinear_arith);
    } else {
        assert(n * v == 0) by (nonlinear_arith)
            requires
                n == 0,
        ;
    }
}

/// In the transformed frame every byte holds the floor average of its own
/// channel over the original frame, and every pixel record repeats the first
/// one: the whole output is one solid averaged color.
pub proof fn lemma_transform_solid_color(s: Seq<u8>)
    requires
        s.len() % 4 == 0,
        s.len() > 0,
    ensures
        forall|i: int|
            0 <= i < s.len() ==> #[trigger] transformed(s)[i] == channel_avg(s, i % 4) as u8,
        forall|i: int| 0 <= i < s.len() ==> #[trigger] transformed(s)[i] == transformed(s)[i % 4],
{
    if s.len() < 4 {
        vstd::arithmetic::div_mod::lemma_small_mod(s.len(), 4);
        assert(false);
    }
    assert forall|i: int| 0 <= i < s.len() implies #[trigger] transformed(s)[i] == transformed(
        s,
    )[i % 4] by {
        vstd::arithmetic::div_mod::lemma_mod_bound(i, 4);
        vstd::arithmetic::div_mod::lemma_small_mod((i % 4) as nat, 4);
    }
}

/// Averaging is idempotent: transforming an already transformed frame leaves
/// it unchanged, because every channel of a solid-color frame averages back
/// to that very color.
pub proof fn lemma_transform_idempotent(s: Seq<u8>)
    requires
        s.len() % 4 == 0,
        s.len() > 0,
    ensures
        transformed(transformed(s)) == transformed(s),
{
    let t = transformed(s);
    let n = pixel_count(s);
    assert(t.len() == s.len());
    vstd::arithmetic::div_mod::lemma_fundamental_div_mod(s.len() as int, 4);
    assert(s.len() == 4 * n);
    assert forall|c: int| 0 <= c < 4 implies channel_avg(t, c) == channel_avg(s, c) by {
        lemma_channel_avg_bounds(s, c);
        let v: u8 = channel_avg(s, c) as u8;
        assert forall|k: int| 0 <= k < n implies #[trigger] channel_at(t, k, c) == v by {
            assert(t[4 * k + c] == channel_avg(s, (4 * k + c) % 4) as u8);
            vstd::arithmetic::div_mod::lemma_mod_multiples_vanish(k, c, 4);
            vstd::arithmetic::div_mod::lemma_small_mod(c as nat, 4);
        }
        lemma_uniform_channel_sum(t, c, n, v);
        vstd::arithmetic::div_mod::lemma_div_multiples_vanish(v as int, n);
    }
    assert forall|i: int| 0 <= i < t.len() implies transformed(t)[i] == t[i] by {
        vstd::arithmetic::div_mod::lemma_mod_bound(i, 4);
        assert(channel_avg(t, i % 4) == channel_avg(s, i % 4));
    }
    assert(transformed(t) =~= t);
}

/// Compute the frame's average color: each channel of the result is the floor
/// average of that channel over every pixel record of `frame`.
pub fn avgcolor(frame: &Vec<u8>) -> (p: Pixel)
    requires
        frame@.len() % 4 == 0,
        frame@.len() > 0,
        frame@.len() <= MAX_FRAME_BYTES,
    ensures
        p.r == channel_avg(frame@, 0),
        p.g == channel_avg(frame@, 1),
        p.b == channel_avg(frame@, 2),
        p.x == channel_avg(frame@, 3),
{
    let n: usize = frame.len() / 4;
    let mut total_r: u64 = 0;
    let mut total_g: u64 = 0;
    let mut total_b: u64 = 0;
    let mut total_x: u64 = 0;
    let mut i: usize = 0;
    while i < n
        invariant
            i <= n,
            n == pixel_count(frame@),
            frame@.len() == 4 * n,
            frame@.len() <= MAX_FRAME_BYTES,
            total_r == channel_sum(frame@, 0, i as int),
            total_g == channel_sum(frame@, 1, i as int),
            total_b == channel_sum(frame@, 2, i as int),
            total_x == channel_sum(frame@, 3, i as int),
            total_r <= 255 * i,
            total_g <= 255 * i,
            total_b <= 255 * i,
            total_x <= 255 * i,
        decreases n - i,
    {
        let r = frame[4 * i];
        let g = frame[4 * i + 1];
        let b = frame[4 * i + 2];
        let x = frame[4 * i + 3];
        total_r = total_r + r as u64;
        total_g = total_g + g as u64;
        total_b = total_b + b as u64;
        total_x = total_x + x as u64;
        i = i + 1;
    }
    let count: u64 = n as u64;
    proof {
        lemma_channel_sum_bounds(frame@, 0, n as int);
        lemma_channel_sum_bounds(frame@, 1, n as int);
        lemma_channel_sum_bounds(frame@, 2, n as int);
        lemma_channel_sum_bounds(frame@, 3, n as int);
        lemma_channel_avg_bounds(frame@, 0);
        lemma_channel_avg_bounds(frame@, 1);
        lemma_channel_avg_bounds(frame@, 2);
        lemma_channel_avg_bounds(frame@, 3);
    }
    Pixel {
        r: (total_r / count) as u8,
        g: (total_g / count) as u8,
        b: (total_b / count) as u8,
        x: (total_x / count) as u8,
    }
}

} // verus!
