//! The format registry: from a sample type and a channel count to the texel
//! formats of the input and output image.

use vstd::prelude::*;
use crate::error::DenoiseError;

verus! {

/// The numeric type of one sample of a host pixel buffer.
#[derive(Debug, Clone, Copy, PartialEq, Eq, Structural)]
pub enum ElementType {
    U8,
    U16,
    F32,
}

/// The accelerator texel formats this library works with.
#[derive(Debug, Clone, Copy, PartialEq, Eq, Structural)]
pub enum TexelFormat {
    R8Uint,
    R16Uint,
    R8G8B8A8Uint,
    R16G16B16A16Uint,
    R32Sfloat,
    R32G32B32A32Sfloat,
}

/// The pair of texel formats chosen for one buffer, with the number of
/// channels that each pixel occupies on the device.
#[derive(Debug, Clone, Copy, PartialEq, Eq, Structural)]
pub struct FormatDescriptor {
    pub sampled_format: TexelFormat,
    pub storage_format: TexelFormat,
    pub output_channels: usize,
}

/// The channel counts a host buffer may have.
pub open spec fn supported_channels(channels: int) -> bool {
    channels == 1 || channels == 3 || channels == 4
}

/// Channels per pixel on the device: three-channel data is stored in four.
pub open spec fn device_channels(channels: int) -> int {
    if channels == 3 {
        4
    } else {
        channels
    }
}

/// The format the kernel samples from: always 32-bit floating point.
pub open spec fn sampled_format_of(channels: int) -> TexelFormat {
    if channels == 1 {
        TexelFormat::R32Sfloat
    } else {
        TexelFormat::R32G32B32A32Sfloat
    }
}

/// The format the kernel writes to.
pub open spec fn storage_format_of(element: ElementType, channels: int) -> TexelFormat {
    match element {
        ElementType::U8 => if channels == 1 {
            TexelFormat::R8Uint
        } else {
            TexelFormat::R8G8B8A8Uint
        },
        ElementType::U16 => if channels == 1 {
            TexelFormat::R16Uint
        } else {
            TexelFormat::R16G16B16A16Uint
        },
        ElementType::F32 => if channels == 1 {
            TexelFormat::R32Sfloat
        } else {
            TexelFormat::R32G32B32A32Sfloat
        },
    }
}

/// What `resolve` yields on a supported channel count.
pub open spec fn descriptor_of(element: ElementType, channels: int) -> FormatDescriptor {
    FormatDescriptor {
        sampled_format: sampled_format_of(channels),
        storage_format: storage_format_of(element, channels),
        output_channels: device_channels(channels) as usize,
    }
}

impl TexelFormat {
    /// Channels per texel.
    pub open spec fn channel_count(self) -> int {
        match self {
            TexelFormat::R8Uint | TexelFormat::R16Uint | TexelFormat::R32Sfloat => 1,
            _ => 4,
        }
    }

    /// Whether the texels hold floating-point numbers.
    pub open spec fn is_float(self) -> bool {
        self == TexelFormat::R32Sfloat || self == TexelFormat::R32G32B32A32Sfloat
    }

    /// Channels per texel.
    pub fn channels(self) -> (n: usize)
        ensures
            n == self.channel_count(),
    {
        match self {
            TexelFormat::R8Uint | TexelFormat::R16Uint | TexelFormat::R32Sfloat => 1,
            _ => 4,
        }
    }
}

/// Maps an element type and a channel count to the formats used on the
/// device. Succeeds on exactly the channel counts 1, 3 and 4.
pub fn resolve(element_type: ElementType, channel_count: usize) -> (r: Result<
    FormatDescriptor,
    DenoiseError,
>)
    ensures
        supported_channels(channel_count as int) ==> r == Ok::<FormatDescriptor, DenoiseError>(
            descriptor_of(element_type, channel_count as int),
        ),
        !supported_channels(channel_count as int) ==> r == Err::<FormatDescriptor, DenoiseError>(
            DenoiseError::UnsupportedInput,
        ),
{
    if channel_count == 1 || channel_count == 3 || channel_count == 4 {
        let output_channels: usize = if channel_count == 3 {
            4
        } else {
            channel_count
        };
        Ok(
            FormatDescriptor {
                sampled_format: sampled_format(channel_count),
                storage_format: storage_format(element_type, channel_count),
                output_channels,
            },
        )
    } else {
        Err(DenoiseError::UnsupportedInput)
    }
}

/// A sample type that knows its texel formats.
pub trait TypeToFormat: Sized {
    /// The element type this sample type stands for.
    spec fn element_type() -> ElementType;

    /// The storage format for `num_samples` channels per pixel.
    fn type2result_format(num_samples: usize) -> (f: TexelFormat)
        requires
            supported_channels(num_samples as int),
        ensures
            f == storage_format_of(Self::element_type(), num_samples as int),
    ;

    /// The sampled format for `num_samples` channels per pixel.
    fn type2sampled_format(num_samples: usize) -> (f: TexelFormat)
        requires
            supported_channels(num_samples as int),
        ensures
            f == sampled_format_of(num_samples as int),
    ;
}

/// A 32-bit floating-point sample, held as its IEEE 754 bit pattern.
#[derive(Debug, Clone, Copy, PartialEq, Eq, Structural)]
pub struct FloatBits(pub u32);

/// Storage format lookup shared by the sample types.
fn storage_format(element_type: ElementType, num_samples: usize) -> (f: TexelFormat)
    requires
        supported_channels(num_samples as int),
    ensures
        f == storage_format_of(element_type, num_samples as int),
{
    let single = num_samples == 1;
    match element_type {
        ElementType::U8 => if single {
            TexelFormat::R8Uint
        } else {
            TexelFormat::R8G8B8A8Uint
        },
        ElementType::U16 => if single {
            TexelFormat::R16Uint
        } else {
            TexelFormat::R16G16B16A16Uint
        },
        ElementType::F32 => if single {
            TexelFormat::R32Sfloat
        } else {
            TexelFormat::R32G32B32A32Sfloat
        },
    }
}

/// Sampled format lookup shared by the sample types.
fn sampled_format(num_samples: usize) -> (f: TexelFormat)
    requires
        supported_channels(num_samples as int),
    ensures
        f == sampled_format_of(num_samples as int),
{
    if num_samples == 1 {
        TexelFormat::R32Sfloat
    } else {
        TexelFormat::R32G32B32A32Sfloat
    }
}

impl TypeToFormat for u8 {
    open spec fn element_type() -> ElementType {
        ElementType::U8
    }

    fn type2result_format(num_samples: usize) -> (f: TexelFormat) {
        storage_format(ElementType::U8, num_samples)
    }

    fn type2sampled_format(num_samples: usize) -> (f: TexelFormat) {
        sampled_format(num_samples)
    }
}

impl TypeToFormat for u16 {
    open spec fn element_type() -> ElementType {
        ElementType::U16
    }

    fn type2result_format(num_samples: usize) -> (f: TexelFormat) {
        storage_format(ElementType::U16, num_samples)
    }

    fn type2sampled_format(num_samples: usize) -> (f: TexelFormat) {
        sampled_format(num_samples)
    }
}

impl TypeToFormat for FloatBits {
    open spec fn element_type() -> ElementType {
        ElementType::F32
    }

    fn type2result_format(num_samples: usize) -> (f: TexelFormat) {
        storage_format(ElementType::F32, num_samples)
    }

    fn type2sampled_format(num_samples: usize) -> (f: TexelFormat) {
        sampled_format(num_samples)
    }
}

} // verus!
