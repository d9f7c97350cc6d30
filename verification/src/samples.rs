//! Samples as an image container stores them: bit depths, frame sizes and
//! byte order.

use byteorder::ByteOrder;
use vstd::prelude::*;
use crate::error::DenoiseError;

verus! {

/// Bytes that one sample of the given bit depth occupies, if the depth is supported.
pub open spec fn bytes_per_sample_spec(bit_depth: u8) -> Option<int> {
    if bit_depth == 8 {
        Some(1)
    } else if bit_depth == 16 {
        Some(2)
    } else {
        None
    }
}

/// The 16-bit sample that two bytes hold, the high one first.
pub open spec fn be_sample(high: u8, low: u8) -> u16 {
    (high * 256 + low) as u16
}

/// The samples that a big-endian byte sequence of even length holds.
pub open spec fn be_samples_spec(bytes: Seq<u8>) -> Seq<u16> {
    Seq::new(bytes.len() / 2, |i: int| be_sample(bytes[2 * i], bytes[2 * i + 1]))
}

/// The big-endian bytes of a sequence of samples.
pub open spec fn be_bytes_spec(samples: Seq<u16>) -> Seq<u8> {
    Seq::new(
        2 * samples.len(),
        |j: int|
            if j % 2 == 0 {
                (samples[j / 2] / 256) as u8
            } else {
                (samples[j / 2] % 256) as u8
            },
    )
}

/// Writing samples out and reading them back gives the samples.
pub proof fn lemma_be_roundtrip(samples: Seq<u16>)
    ensures
        be_samples_spec(be_bytes_spec(samples)) == samples,
{
    let bytes = be_bytes_spec(samples);
    assert forall|i: int| 0 <= i < samples.len() implies be_samples_spec(bytes)[i]
        == samples[i] by {
        assert(bytes[2 * i] == (samples[i] / 256) as u8);
        assert(bytes[2 * i + 1] == (samples[i] % 256) as u8);
    }
    assert(be_samples_spec(bytes) =~= samples);
}

/// Reading samples from an even number of bytes and writing them out again
/// gives the bytes.
pub proof fn lemma_be_bytes_roundtrip(bytes: Seq<u8>)
    requires
        bytes.len() % 2 == 0,
    ensures
        be_bytes_spec(be_samples_spec(bytes)) == bytes,
{
    let samples = be_samples_spec(bytes);
    assert forall|j: int| 0 <= j < bytes.len() implies be_bytes_spec(samples)[j] == bytes[j] by {
        let i = j / 2;
        assert(samples[i] == be_sample(bytes[2 * i], bytes[2 * i + 1]));
    }
    assert(be_bytes_spec(samples) =~= bytes);
}

/// Bytes that one sample of the given bit depth occupies. Only 8 and 16
/// bits are supported.
pub fn bytes_per_sample(bit_depth: u8) -> (r: Result<usize, DenoiseError>)
    ensures
        match bytes_per_sample_spec(bit_depth) {
            Some(bytes) => r == Ok::<usize, DenoiseError>(bytes as usize),
            None => r == Err::<usize, DenoiseError>(DenoiseError::UnsupportedInput),
        },
{
    if bit_depth == 8 {
        Ok(1)
    } else if bit_depth == 16 {
        Ok(2)
    } else {
        Err(DenoiseError::UnsupportedInput)
    }
}

/// Bytes of one frame of `img_w` by `img_h` pixels with `color_samples`
/// samples per pixel and `bytes_pp` bytes per sample, unless that many do
/// not fit in memory.
pub fn frame_len(img_w: u32, img_h: u32, color_samples: u8, bytes_pp: u8) -> (r: Option<usize>)
    ensures
        match r {
            Some(len) => len == img_w * img_h * color_samples * bytes_pp,
            None => img_w * img_h * color_samples * bytes_pp > usize::MAX,
        },
{
    assert(0 <= (img_w as int) * (img_h as int) <= 0xFFFF_FFFF * 0xFFFF_FFFF)
        by (nonlinear_arith)
        requires
            0 <= img_w <= 0xFFFF_FFFF,
            0 <= img_h <= 0xFFFF_FFFF,
    ;
    let pixels: u128 = (img_w as u128) * (img_h as u128);
    assert(0 <= (color_samples as int) * (bytes_pp as int) <= 255 * 255) by (nonlinear_arith)
        requires
            0 <= color_samples <= 255,
            0 <= bytes_pp <= 255,
    ;
    let per_pixel: u128 = (color_samples as u128) * (bytes_pp as u128);
    assert(0 <= (pixels as int) * (per_pixel as int) <= 0xFFFF_FFFF * 0xFFFF_FFFF * (255 * 255))
        by (nonlinear_arith)
        requires
            0 <= pixels <= 0xFFFF_FFFF * 0xFFFF_FFFF,
            0 <= per_pixel <= 255 * 255,
    ;
    let total: u128 = pixels * per_pixel;
    assert(total == img_w * img_h * color_samples * bytes_pp) by (nonlinear_arith)
        requires
            total == (img_w * img_h) * (color_samples * bytes_pp),
    ;
    if total > usize::MAX as u128 {
        None
    } else {
        Some(total as usize)
    }
}

/// Fills `dst` with the samples that `src` holds in big-endian order, by
/// `byteorder::BigEndian::read_u16_into`: sample `i` is read from the bytes
/// `2 * i`, the high one, and `2 * i + 1`. The call panics unless `src` has
/// two bytes for each place in `dst`.
#[verifier::external_body]
fn read_be_samples_into(src: &[u8], dst: &mut Vec<u16>)
    requires
        src@.len() == 2 * old(dst)@.len(),
    ensures
        final(dst)@ == be_samples_spec(src@),
{
    byteorder::BigEndian::read_u16_into(src, dst.as_mut_slice())
}

/// Reads 16-bit samples from their big-endian bytes. An odd number of
/// bytes is refused.
pub fn samples_from_be_bytes(bytes: &[u8]) -> (r: Result<Vec<u16>, DenoiseError>)
    ensures
        match r {
            Ok(samples) => bytes@.len() % 2 == 0 && samples@ == be_samples_spec(bytes@),
            Err(e) => bytes@.len() % 2 != 0 && e == DenoiseError::UnsupportedInput,
        },
{
    if bytes.len() % 2 != 0 {
        return Err(DenoiseError::UnsupportedInput);
    }
    let count = bytes.len() / 2;
    let mut samples: Vec<u16> = Vec::new();
    let mut i: usize = 0;
    while i < count
        invariant
            0 <= i <= count,
            samples@.len() == i,
        decreases count - i,
    {
        samples.push(0);
        i += 1;
    }
    read_be_samples_into(bytes, &mut samples);
    Ok(samples)
}

/// Writes 16-bit samples out as big-endian bytes.
pub fn samples_to_be_bytes(samples: &[u16]) -> (bytes: Vec<u8>)
    ensures
        bytes@ == be_bytes_spec(samples@),
{
    let mut bytes: Vec<u8> = Vec::new();
    let mut i: usize = 0;
    while i < samples.len()
        invariant
            0 <= i <= samples.len(),
            bytes@.len() == 2 * i,
            forall|j: int|
                0 <= j < 2 * i ==> bytes@[j] == (if j % 2 == 0 {
                    (samples@[j / 2] / 256) as u8
                } else {
                    (samples@[j / 2] % 256) as u8
                }),
        decreases samples.len() - i,
    {
        let sample = samples[i];
        bytes.push((sample / 256) as u8);
        bytes.push((sample % 256) as u8);
        i += 1;
    }
    assert(bytes@ =~= be_bytes_spec(samples@));
    bytes
}

} // verus!
