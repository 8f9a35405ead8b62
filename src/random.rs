use vstd::prelude::*;

use rand::Rng;
use rand_pcg::Lcg64Xsh32;
use byte_slice_cast::AsSliceOf;

verus! {

/// The PCG generator (`rand_pcg::Pcg32`) that drives the fish.
#[verifier::external_type_specification]
#[verifier::external_body]
pub struct ExLcg64Xsh32(Lcg64Xsh32);

/// Relies on rand_pcg::Lcg64Xsh32::new: seeds a generator from a state and a
/// stream selector.
#[verifier::external_body]
pub(crate) fn pcg32(state: u64, stream: u64) -> (r: Lcg64Xsh32) {
    Lcg64Xsh32::new(state, stream)
}

/// Relies on rand::Rng::gen_range for `u8`: a value in `[lo, hi)`; it panics
/// unless `lo < hi`.
#[verifier::external_body]
pub(crate) fn gen_range_u8(rng: &mut Lcg64Xsh32, lo: u8, hi: u8) -> (r: u8)
    requires
        lo < hi,
    ensures
        lo <= r < hi,
{
    rng.gen_range(lo, hi)
}

/// Relies on rand::Rng::gen_range for `u32`: a value in `[lo, hi)`; it panics
/// unless `lo < hi`.
#[verifier::external_body]
pub(crate) fn gen_range_u32(rng: &mut Lcg64Xsh32, lo: u32, hi: u32) -> (r: u32)
    requires
        lo < hi,
    ensures
        lo <= r < hi,
{
    rng.gen_range(lo, hi)
}

/// Relies on rand::Rng::gen_range for `i32`: a value in `[lo, hi)`; it panics
/// unless `lo < hi`.
#[verifier::external_body]
pub(crate) fn gen_range_i32(rng: &mut Lcg64Xsh32, lo: i32, hi: i32) -> (r: i32)
    requires
        lo < hi,
    ensures
        lo <= r < hi,
{
    rng.gen_range(lo, hi)
}

/// Relies on rand::Rng::gen for `bool`: a fair coin.
#[verifier::external_body]
pub(crate) fn gen_bool(rng: &mut Lcg64Xsh32) -> (r: bool) {
    rng.gen::<bool>()
}

/// Relies on rand::Rng::gen_ratio: `true` with probability
/// `numerator / denominator`, always when they are equal and never when the
/// numerator is zero; it panics when `denominator == 0` or
/// `numerator > denominator`.
#[verifier::external_body]
pub(crate) fn gen_ratio(rng: &mut Lcg64Xsh32, numerator: u32, denominator: u32) -> (r: bool)
    requires
        0 < denominator,
        numerator <= denominator,
    ensures
        numerator == denominator ==> r,
        numerator == 0 ==> !r,
{
    rng.gen_ratio(numerator, denominator)
}

/// Relies on byte_slice_cast::AsSliceOf::as_slice_of for `u16`: the bytes
/// read in place as words in the machine's byte order, half as many of them;
/// it fails on an odd length or a misaligned buffer, never on an empty one.
#[verifier::external_body]
pub(crate) fn cast_words<'a>(bytes: &'a [u8]) -> (r: Option<&'a [u16]>)
    ensures
        r matches Some(w) ==> 2 * w@.len() == bytes@.len(),
        bytes@.len() % 2 == 1 ==> r is None,
        bytes@.len() == 0 ==> r is Some,
{
    bytes.as_slice_of::<u16>().ok()
}

} // verus!
