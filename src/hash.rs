use vstd::prelude::*;
use vstd::string::*;

use crate::error::PipelineError;
use crate::error::{float_samples_cause, float_samples_error};
use crate::imaging::{
    color_format, decode, decode_failure, decoded_format, decodes, resized_luma8, resized_luma8_of,
};
use crate::metadata::is_float_format;

verus! {

/// Side of the luminance grid that the hash is taken from.
pub const HASH_GRID_SIDE: u32 = 8;

/// Number of grid cells, and of characters in a hash.
pub const HASH_LEN: usize = 64;

/// Sum of the samples.
pub open spec fn sample_sum(s: Seq<u8>) -> int
    decreases s.len(),
{
    if s.len() == 0 {
        0
    } else {
        sample_sum(s.drop_last()) + s.last()
    }
}

/// Mean of the samples, rounded down.
pub open spec fn floor_mean(s: Seq<u8>) -> int {
    sample_sum(s) / s.len() as int
}

/// One cell of the hash: '1' where the sample is strictly above the mean.
pub open spec fn hash_bit(sample: u8, mean: int) -> char {
    if sample as int > mean {
        '1'
    } else {
        '0'
    }
}

/// The average hash of a luminance grid, one character per cell, row-major.
pub open spec fn average_hash_of(luma: Seq<u8>) -> Seq<char> {
    Seq::new(luma.len(), |i: int| hash_bit(luma[i], floor_mean(luma)))
}

/// A string of 64 characters, each '0' or '1'.
pub open spec fn is_hash_shape(h: Seq<char>) -> bool {
    &&& h.len() == HASH_LEN
    &&& forall|i: int| 0 <= i < h.len() ==> #[trigger] h[i] == '0' || h[i] == '1'
}

proof fn lemma_sample_sum_step(s: Seq<u8>, i: int)
    requires
        0 <= i < s.len(),
    ensures
        sample_sum(s.subrange(0, i + 1)) == sample_sum(s.subrange(0, i)) + s[i],
{
    assert(s.subrange(0, i + 1).drop_last() =~= s.subrange(0, i));
}

/// Hashes an 8 × 8 luminance grid: each cell becomes '1' when it is strictly
/// above the floor of the grid's mean, else '0'.
pub fn average_hash(luma: &Vec<u8>) -> (r: String)
    requires
        luma@.len() == HASH_LEN,
    ensures
        r@ == average_hash_of(luma@),
{
    let mut sum: u32 = 0;
    let mut i: usize = 0;
    while i < luma.len()
        invariant
            luma@.len() == HASH_LEN,
            i <= luma@.len(),
            sum == sample_sum(luma@.subrange(0, i as int)),
            sum <= 255 * i,
        decreases luma@.len() - i,
    {
        proof {
            lemma_sample_sum_step(luma@, i as int);
        }
        sum = sum + luma[i] as u32;
        i = i + 1;
    }
    assert(luma@.subrange(0, luma@.len() as int) =~= luma@);
    let mean = sum / (HASH_LEN as u32);
    let mut hash = String::new();
    let mut j: usize = 0;
    while j < luma.len()
        invariant
            luma@.len() == HASH_LEN,
            j <= luma@.len(),
            mean as int == floor_mean(luma@),
            hash@ =~= average_hash_of(luma@).subrange(0, j as int),
        decreases luma@.len() - j,
    {
        proof {
            reveal_strlit("1");
            reveal_strlit("0");
        }
        if luma[j] as u32 > mean {
            hash.append("1");
        } else {
            hash.append("0");
        }
        j = j + 1;
    }
    hash
}

/// Every average hash of an 8 × 8 grid has 64 characters, each '0' or '1'.
pub proof fn lemma_hash_shape(luma: Seq<u8>)
    requires
        luma.len() == HASH_LEN,
    ensures
        is_hash_shape(average_hash_of(luma)),
{
}

proof fn lemma_sum_bounds(s: Seq<u8>, lo: int, hi: int)
    requires
        forall|i: int| 0 <= i < s.len() ==> lo <= #[trigger] s[i] <= hi,
    ensures
        lo * s.len() <= sample_sum(s) <= hi * s.len(),
    decreases s.len(),
{
    if s.len() > 0 {
        let t = s.drop_last();
        assert forall|i: int| 0 <= i < t.len() implies lo <= #[trigger] t[i] <= hi by {
            assert(t[i] == s[i]);
        }
        lemma_sum_bounds(t, lo, hi);
        assert(lo <= s.last() <= hi);
        assert(lo * s.len() == lo * t.len() + lo && hi * s.len() == hi * t.len() + hi)
            by (nonlinear_arith)
            requires
                s.len() == t.len() + 1,
        ;
        assert(sample_sum(s) == sample_sum(t) + s.last());
    } else {
        assert(lo * s.len() == 0 && hi * s.len() == 0) by (nonlinear_arith)
            requires
                s.len() == 0,
        ;
    }
}

proof fn lemma_sum_shift(s: Seq<u8>, t: Seq<u8>, c: int)
    requires
        t.len() == s.len(),
        forall|i: int| 0 <= i < s.len() ==> #[trigger] t[i] == s[i] + c,
    ensures
        sample_sum(t) == sample_sum(s) + c * s.len(),
    decreases s.len(),
{
    if s.len() > 0 {
        let s0 = s.drop_last();
        let t0 = t.drop_last();
        assert forall|i: int| 0 <= i < s0.len() implies #[trigger] t0[i] == s0[i] + c by {
            assert(t0[i] == t[i] && s0[i] == s[i]);
        }
        lemma_sum_shift(s0, t0, c);
        assert(t.last() == s.last() + c);
        assert(c * s.len() == c * s0.len() + c) by (nonlinear_arith)
            requires
                s.len() == s0.len() + 1,
        ;
        assert(sample_sum(s) == sample_sum(s0) + s.last());
        assert(sample_sum(t) == sample_sum(t0) + t.last());
    } else {
        assert(c * s.len() == 0) by (nonlinear_arith)
            requires
                s.len() == 0,
        ;
    }
}

/// Every hash of an 8 × 8 grid holds at least one '0': no grid has all its
/// cells strictly above its own mean.
pub proof fn lemma_hash_has_zero(luma: Seq<u8>)
    requires
        luma.len() == HASH_LEN,
    ensures
        exists|i: int| 0 <= i < HASH_LEN && #[trigger] average_hash_of(luma)[i] == '0',
{
    let m = floor_mean(luma);
    if forall|i: int| 0 <= i < luma.len() ==> #[trigger] luma[i] > m {
        lemma_sum_bounds(luma, m + 1, 255);
        assert(false);
    } else {
        let i = choose|i: int| 0 <= i < luma.len() && !(#[trigger] luma[i] > m);
        assert(average_hash_of(luma)[i] == '0');
    }
}

/// A grid whose cells all hold one value hashes to 64 '0's.
pub proof fn lemma_hash_of_uniform(luma: Seq<u8>, v: u8)
    requires
        luma.len() == HASH_LEN,
        forall|i: int| 0 <= i < luma.len() ==> luma[i] == v,
    ensures
        average_hash_of(luma) == Seq::new(HASH_LEN as nat, |i: int| '0'),
{
    lemma_sum_bounds(luma, v as int, v as int);
    assert(floor_mean(luma) == v);
    assert(average_hash_of(luma) =~= Seq::new(HASH_LEN as nat, |i: int| '0'));
}

/// Brightening or darkening every cell of a grid by one amount leaves its
/// hash unchanged.
pub proof fn lemma_hash_shift_invariant(luma: Seq<u8>, shifted: Seq<u8>, c: int)
    requires
        luma.len() == HASH_LEN,
        shifted.len() == HASH_LEN,
        forall|i: int| 0 <= i < HASH_LEN ==> #[trigger] shifted[i] == luma[i] + c,
    ensures
        average_hash_of(shifted) == average_hash_of(luma),
{
    lemma_sum_shift(luma, shifted, c);
    assert(floor_mean(shifted) == floor_mean(luma) + c);
    assert(average_hash_of(shifted) =~= average_hash_of(luma));
}

/// The grid a hash is taken from: the decoded image resampled to 8 × 8 with
/// the nearest-neighbour filter, as 8-bit luminance.
pub open spec fn hash_grid(bytes: Seq<u8>) -> Seq<u8> {
    resized_luma8_of(bytes, HASH_GRID_SIDE, HASH_GRID_SIDE)
}

/// Decodes an image, resamples it to 8 × 8 with the nearest-neighbour
/// filter, takes its luminance and hashes that grid. Fails exactly when the
/// bytes do not decode or decode to an image of 32-bit float samples.
pub fn calculate_perceptual_hash(bytes: &Vec<u8>) -> (r: Result<String, PipelineError>)
    ensures
        r is Ok <==> decodes(bytes@) && !is_float_format(decoded_format(bytes@)),
        r is Err ==> r->Err_0 is Decode,
        r is Err && !decodes(bytes@) ==> decode_failure(bytes@) == Some(r->Err_0->Decode_0@),
        r is Err && decodes(bytes@) ==> r->Err_0->Decode_0@ == float_samples_cause(),
        r is Ok ==> r->Ok_0@ == average_hash_of(hash_grid(bytes@)),
        r is Ok ==> is_hash_shape(r->Ok_0@),
{
    match decode(bytes) {
        Ok(img) => {
            if color_format(&img).is_float() {
                return Err(float_samples_error());
            }
            let luma = resized_luma8(&img, HASH_GRID_SIDE, HASH_GRID_SIDE);
            let hash = average_hash(&luma);
            proof {
                lemma_hash_shape(luma@);
            }
            Ok(hash)
        },
        Err(cause) => Err(PipelineError::Decode(cause)),
    }
}

} // verus!
