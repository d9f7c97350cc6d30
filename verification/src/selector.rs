//! The variant selector: exact lookup of a kernel in the variant table.

use vstd::prelude::*;
use crate::error::DenoiseError;
use crate::format::{descriptor_of, supported_channels, ElementType, TexelFormat};
use crate::variant::{
    is_registered, lemma_kernel_formats, lemma_variants_are_registered, variant_table, variants,
    Algo, UsingShader, VariantKey,
};

verus! {

/// The position of a kernel in the variant table.
#[derive(Debug, Clone, Copy, PartialEq, Eq, Structural)]
pub struct KernelId(pub usize);

/// Whether `id` is the position of `key` in the variant table: the first, and
/// so the only one that an exact lookup finds.
pub open spec fn is_kernel_for(id: KernelId, key: VariantKey) -> bool {
    &&& id.0 < variants().len()
    &&& variants()[id.0 as int] == key
    &&& forall|j: int| 0 <= j < id.0 ==> variants()[j] != key
}

/// Looks up the kernel for an exact (format, stage, hsv, algorithm) tuple.
///
/// The result is the tuple's position in the variant table; a tuple that was
/// never generated is refused, with no fallback to a similar one.
pub fn select(format: TexelFormat, stage: UsingShader, hsv: bool, algorithm: Algo) -> (r: Result<
    KernelId,
    DenoiseError,
>)
    ensures
        r is Ok <==> is_registered(VariantKey { format, stage, hsv, algorithm }),
        r matches Ok(id) ==> is_kernel_for(id, VariantKey { format, stage, hsv, algorithm }),
        r matches Err(e) ==> e == DenoiseError::UnsupportedVariant,
{
    let key = VariantKey { format, stage, hsv, algorithm };
    let table = variant_table();
    proof {
        lemma_variants_are_registered(key);
    }
    let mut i: usize = 0;
    while i < table.len()
        invariant
            0 <= i <= table.len(),
            table@ == variants(),
            key == (VariantKey { format, stage, hsv, algorithm }),
            variants().contains(key) <==> is_registered(key),
            forall|j: int| 0 <= j < i ==> table@[j] != key,
        decreases table.len() - i,
    {
        if table[i] == key {
            assert(variants()[i as int] == key);
            return Ok(KernelId(i));
        }
        i += 1;
    }
    Err(DenoiseError::UnsupportedVariant)
}

/// Dispatch completeness: a `Smart` kernel exists at either stage for every
/// storage format that the registry resolves to, and exists in
/// hue/value-isolated mode exactly where the device pixel has more than one
/// channel.
pub proof fn lemma_dispatch_complete(
    element: ElementType,
    channels: int,
    stage: UsingShader,
    hsv: bool,
)
    requires
        supported_channels(channels),
    ensures
        is_registered(
            VariantKey {
                format: descriptor_of(element, channels).storage_format,
                stage,
                hsv,
                algorithm: Algo::Smart,
            },
        ) <==> (!hsv || descriptor_of(element, channels).output_channels > 1),
{
    lemma_kernel_formats(descriptor_of(element, channels).storage_format);
}

/// Every kernel writes a format that the registry resolves some buffer to,
/// with as many channels as the registry says the device pixel has.
pub proof fn lemma_kernels_match_registry(key: VariantKey)
    requires
        is_registered(key),
    ensures
        exists|element: ElementType, channels: int|
            {
                &&& supported_channels(channels)
                &&& (#[trigger] descriptor_of(element, channels)).storage_format == key.format
                &&& descriptor_of(element, channels).output_channels
                    == key.format.channel_count()
            },
{
    let (element, channels) = match key.format {
        TexelFormat::R8Uint => (ElementType::U8, 1int),
        TexelFormat::R16Uint => (ElementType::U16, 1int),
        TexelFormat::R8G8B8A8Uint => (ElementType::U8, 4int),
        TexelFormat::R16G16B16A16Uint => (ElementType::U16, 4int),
        TexelFormat::R32Sfloat => (ElementType::F32, 1int),
        TexelFormat::R32G32B32A32Sfloat => (ElementType::F32, 4int),
    };
    assert(descriptor_of(element, channels).storage_format == key.format);
}

} // verus!
