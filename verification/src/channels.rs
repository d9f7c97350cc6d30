//! The layout adapter between three-channel host buffers and four-channel
//! device images.

use vstd::prelude::*;
use vstd::slice::slice_to_vec;

verus! {

/// The device layout of three-channel data: after every third sample an
/// alpha sample is inserted, so that each pixel occupies four.
pub open spec fn pad_alpha_spec<T>(samples: Seq<T>, alpha: T) -> Seq<T> {
    Seq::new(
        (samples.len() + samples.len() / 3) as nat,
        |j: int|
            if j % 4 == 3 {
                alpha
            } else {
                samples[j - j / 4]
            },
    )
}

/// The host layout of four-channel device data: every fourth sample is dropped.
pub open spec fn strip_alpha_spec<T>(device: Seq<T>) -> Seq<T> {
    Seq::new((device.len() - device.len() / 4) as nat, |i: int| device[i + i / 3])
}

/// The samples as laid out on the device for a buffer of `channels` channels.
pub open spec fn device_layout_spec<T>(samples: Seq<T>, channels: int, alpha: T) -> Seq<T> {
    if channels == 3 {
        pad_alpha_spec(samples, alpha)
    } else {
        samples
    }
}

/// The samples handed back to the host for a buffer of `channels` channels.
pub open spec fn host_layout_spec<T>(device: Seq<T>, channels: int) -> Seq<T> {
    if channels == 3 {
        strip_alpha_spec(device)
    } else {
        device
    }
}

/// Padding and then stripping gives back the samples that went in, whatever
/// their number and whatever the alpha sample.
pub proof fn lemma_pad_strip_roundtrip<T>(samples: Seq<T>, alpha: T)
    ensures
        strip_alpha_spec(pad_alpha_spec(samples, alpha)) == samples,
{
    let padded = pad_alpha_spec(samples, alpha);
    let back = strip_alpha_spec(padded);
    assert(back.len() == samples.len());
    assert forall|i: int| 0 <= i < samples.len() implies back[i] == samples[i] by {
        let j = i + i / 3;
        assert(j % 4 != 3);
        assert(j - j / 4 == i);
        assert(0 <= j < padded.len());
    }
    assert(back =~= samples);
}

/// The round trip through the device layout is the identity on a host buffer
/// of any channel count.
pub proof fn lemma_layout_roundtrip<T>(samples: Seq<T>, channels: int, alpha: T)
    ensures
        host_layout_spec(device_layout_spec(samples, channels, alpha), channels) == samples,
{
    lemma_pad_strip_roundtrip(samples, alpha);
}

/// A padded buffer of whole three-channel pixels holds four samples per pixel.
pub proof fn lemma_pad_len<T>(samples: Seq<T>, alpha: T, pixels: int)
    requires
        samples.len() == 3 * pixels,
    ensures
        pad_alpha_spec(samples, alpha).len() == 4 * pixels,
{
}

/// Inserts `alpha` after every third sample.
pub fn pad_alpha<T: Copy>(samples: &[T], alpha: T) -> (padded: Vec<T>)
    ensures
        padded@ == pad_alpha_spec(samples@, alpha),
{
    let mut padded: Vec<T> = Vec::new();
    let mut i: usize = 0;
    while i < samples.len()
        invariant
            0 <= i <= samples.len(),
            padded@.len() == i + i / 3,
            forall|j: int|
                0 <= j < padded@.len() ==> padded@[j] == (if j % 4 == 3 {
                    alpha
                } else {
                    samples@[j - j / 4]
                }),
        decreases samples.len() - i,
    {
        padded.push(samples[i]);
        if i % 3 == 2 {
            padded.push(alpha);
        }
        i += 1;
    }
    assert(padded@ =~= pad_alpha_spec(samples@, alpha));
    padded
}

/// Drops every fourth sample.
pub fn strip_alpha<T: Copy>(device: &[T]) -> (stripped: Vec<T>)
    ensures
        stripped@ == strip_alpha_spec(device@),
{
    let mut stripped: Vec<T> = Vec::new();
    let mut j: usize = 0;
    while j < device.len()
        invariant
            0 <= j <= device.len(),
            stripped@.len() == j - j / 4,
            forall|i: int| 0 <= i < stripped@.len() ==> stripped@[i] == device@[i + i / 3],
        decreases device.len() - j,
    {
        if j % 4 != 3 {
            stripped.push(device[j]);
        }
        j += 1;
    }
    assert(stripped@ =~= strip_alpha_spec(device@));
    stripped
}

/// Lays a host buffer out for the device: three-channel data gains an alpha
/// sample per pixel, anything else is copied as it is.
pub fn to_device_layout<T: Copy>(samples: &[T], channels: usize, alpha: T) -> (device: Vec<T>)
    ensures
        device@ == device_layout_spec(samples@, channels as int, alpha),
{
    if channels == 3 {
        pad_alpha(samples, alpha)
    } else {
        slice_to_vec(samples)
    }
}

/// Lays device data out for the host again: for three-channel data the alpha
/// sample of each pixel is dropped, anything else is copied as it is.
pub fn from_device_layout<T: Copy>(device: &[T], channels: usize) -> (samples: Vec<T>)
    ensures
        samples@ == host_layout_spec(device@, channels as int),
{
    if channels == 3 {
        strip_alpha(device)
    } else {
        slice_to_vec(device)
    }
}

} // verus!
