//! The kernel variants: the key that identifies one, and the table of all
//! that are generated.

use vstd::prelude::*;
use crate::format::TexelFormat;

verus! {

/// The execution stage a kernel is built for.
#[derive(Debug, Clone, Copy, PartialEq, Eq, Structural)]
pub enum UsingShader {
    /// One invocation per output pixel, triggered by drawing a full-screen quad.
    Fragment,
    /// Work items dispatched over an explicit grid.
    Compute,
}

/// The filter algorithm a kernel implements.
#[derive(Debug, Clone, Copy, PartialEq, Eq, Structural)]
pub enum Algo {
    Smart,
    Radial,
}

/// Identifies one kernel variant.
#[derive(Debug, Clone, Copy, PartialEq, Eq, Structural)]
pub struct VariantKey {
    pub format: TexelFormat,
    pub stage: UsingShader,
    pub hsv: bool,
    pub algorithm: Algo,
}

/// The storage formats that kernels are generated for, in table order.
pub open spec fn kernel_formats() -> Seq<TexelFormat> {
    seq![
        TexelFormat::R8Uint,
        TexelFormat::R16Uint,
        TexelFormat::R8G8B8A8Uint,
        TexelFormat::R16G16B16A16Uint,
        TexelFormat::R32Sfloat,
        TexelFormat::R32G32B32A32Sfloat,
    ]
}

/// The variants of one format at one stage: the direct one, followed by the
/// hue/value-isolated one where the format has more than one channel.
pub open spec fn stage_variants(format: TexelFormat, stage: UsingShader, algorithm: Algo) -> Seq<
    VariantKey,
> {
    if format.channel_count() > 1 {
        seq![
            VariantKey { format, stage, hsv: false, algorithm },
            VariantKey { format, stage, hsv: true, algorithm },
        ]
    } else {
        seq![VariantKey { format, stage, hsv: false, algorithm }]
    }
}

/// The variants of one format: compute stage first, then fragment stage.
pub open spec fn format_variants(format: TexelFormat, algorithm: Algo) -> Seq<VariantKey> {
    stage_variants(format, UsingShader::Compute, algorithm) + stage_variants(
        format,
        UsingShader::Fragment,
        algorithm,
    )
}

/// The variants of a list of formats, format by format.
pub open spec fn table_variants(formats: Seq<TexelFormat>, algorithm: Algo) -> Seq<VariantKey>
    decreases formats.len(),
{
    if formats.len() == 0 {
        Seq::empty()
    } else {
        table_variants(formats.drop_last(), algorithm) + format_variants(
            formats.last(),
            algorithm,
        )
    }
}

/// Every kernel variant, in generation order: all of `Smart`, then all of `Radial`.
pub open spec fn variants() -> Seq<VariantKey> {
    table_variants(kernel_formats(), Algo::Smart) + table_variants(kernel_formats(), Algo::Radial)
}

/// Whether a kernel exists for `key`.
pub open spec fn is_registered(key: VariantKey) -> bool {
    &&& kernel_formats().contains(key.format)
    &&& key.hsv ==> key.format.channel_count() > 1
}

/// A key is among the variants of a format list exactly if its algorithm is
/// the list's, its format is in the list, and it asks for hue/value isolation
/// only on a multi-channel format.
pub proof fn lemma_table_variants_contains(
    formats: Seq<TexelFormat>,
    algorithm: Algo,
    key: VariantKey,
)
    ensures
        table_variants(formats, algorithm).contains(key) <==> {
            &&& key.algorithm == algorithm
            &&& formats.contains(key.format)
            &&& key.hsv ==> key.format.channel_count() > 1
        },
    decreases formats.len(),
{
    if formats.len() == 0 {
        assert(!table_variants(formats, algorithm).contains(key));
        assert(!formats.contains(key.format));
    } else {
        let front = formats.drop_last();
        let last = formats.last();
        let head = table_variants(front, algorithm);
        let tail = format_variants(last, algorithm);
        lemma_table_variants_contains(front, algorithm, key);
        lemma_format_variants_contains(last, algorithm, key);
        lemma_concat_contains(head, tail, key);
        assert(formats.contains(key.format) <==> (front.contains(key.format) || key.format
            == last)) by {
            if front.contains(key.format) {
                let i = choose|i: int| 0 <= i < front.len() && front[i] == key.format;
                assert(formats[i] == key.format);
            }
            if key.format == last {
                assert(formats[formats.len() - 1] == key.format);
            }
            if formats.contains(key.format) {
                let i = choose|i: int| 0 <= i < formats.len() && formats[i] == key.format;
                if i < formats.len() - 1 {
                    assert(front[i] == key.format);
                }
            }
        }
    }
}

/// Membership in the variants of a single format.
pub proof fn lemma_format_variants_contains(format: TexelFormat, algorithm: Algo, key: VariantKey)
    ensures
        format_variants(format, algorithm).contains(key) <==> {
            &&& key.algorithm == algorithm
            &&& key.format == format
            &&& key.hsv ==> format.channel_count() > 1
        },
{
    let compute = stage_variants(format, UsingShader::Compute, algorithm);
    let fragment = stage_variants(format, UsingShader::Fragment, algorithm);
    lemma_concat_contains(compute, fragment, key);
    lemma_stage_variants_contains(format, UsingShader::Compute, algorithm, key);
    lemma_stage_variants_contains(format, UsingShader::Fragment, algorithm, key);
}

/// Membership in the variants of a single format at a single stage.
pub proof fn lemma_stage_variants_contains(
    format: TexelFormat,
    stage: UsingShader,
    algorithm: Algo,
    key: VariantKey,
)
    ensures
        stage_variants(format, stage, algorithm).contains(key) <==> {
            &&& key.algorithm == algorithm
            &&& key.format == format
            &&& key.stage == stage
            &&& key.hsv ==> format.channel_count() > 1
        },
{
    let s = stage_variants(format, stage, algorithm);
    if key.algorithm == algorithm && key.format == format && key.stage == stage && (key.hsv
        ==> format.channel_count() > 1) {
        if key.hsv {
            assert(s[1] == key);
        } else {
            assert(s[0] == key);
        }
    }
}

/// An element is in a concatenation exactly if it is in one of the parts.
pub proof fn lemma_concat_contains<T>(a: Seq<T>, b: Seq<T>, x: T)
    ensures
        (a + b).contains(x) <==> a.contains(x) || b.contains(x),
{
    if a.contains(x) {
        let i = choose|i: int| 0 <= i < a.len() && a[i] == x;
        assert((a + b)[i] == x);
    }
    if b.contains(x) {
        let i = choose|i: int| 0 <= i < b.len() && b[i] == x;
        assert((a + b)[a.len() + i] == x);
    }
    if (a + b).contains(x) {
        let i = choose|i: int| 0 <= i < (a + b).len() && (a + b)[i] == x;
        if i < a.len() {
            assert(a[i] == x);
        } else {
            assert(b[i - a.len()] == x);
        }
    }
}

/// Two lists without repetitions that share no element make a list without
/// repetitions.
pub proof fn lemma_concat_distinct<T>(a: Seq<T>, b: Seq<T>)
    requires
        a.no_duplicates(),
        b.no_duplicates(),
        forall|x: T| a.contains(x) ==> !b.contains(x),
    ensures
        (a + b).no_duplicates(),
{
    let c = a + b;
    assert forall|i: int, j: int| 0 <= i < c.len() && 0 <= j < c.len() && i != j implies c[i]
        != c[j] by {
        if i < a.len() && j >= a.len() {
            assert(a.contains(a[i]));
            assert(b[j - a.len()] == c[j]);
            assert(!b.contains(a[i]));
        } else if j < a.len() && i >= a.len() {
            assert(a.contains(a[j]));
            assert(b[i - a.len()] == c[i]);
            assert(!b.contains(a[j]));
        }
    }
}

/// The variants of a list of formats without repetitions are without
/// repetitions.
pub proof fn lemma_table_variants_distinct(formats: Seq<TexelFormat>, algorithm: Algo)
    requires
        formats.no_duplicates(),
    ensures
        table_variants(formats, algorithm).no_duplicates(),
    decreases formats.len(),
{
    if formats.len() > 0 {
        let front = formats.drop_last();
        let last = formats.last();
        let head = table_variants(front, algorithm);
        let compute = stage_variants(last, UsingShader::Compute, algorithm);
        let fragment = stage_variants(last, UsingShader::Fragment, algorithm);
        lemma_table_variants_distinct(front, algorithm);
        assert forall|x: VariantKey| compute.contains(x) implies !fragment.contains(x) by {
            lemma_stage_variants_contains(last, UsingShader::Compute, algorithm, x);
            lemma_stage_variants_contains(last, UsingShader::Fragment, algorithm, x);
        }
        lemma_concat_distinct(compute, fragment);
        assert forall|x: VariantKey| head.contains(x) implies !format_variants(
            last,
            algorithm,
        ).contains(x) by {
            lemma_table_variants_contains(front, algorithm, x);
            lemma_format_variants_contains(last, algorithm, x);
            if front.contains(last) {
                let i = choose|i: int| 0 <= i < front.len() && front[i] == last;
                assert(formats[i] == formats[formats.len() - 1]);
            }
        }
        lemma_concat_distinct(head, format_variants(last, algorithm));
    }
}

/// No variant is listed twice: an exact lookup finds at most one kernel.
pub proof fn lemma_variants_distinct()
    ensures
        variants().no_duplicates(),
{
    let smart = table_variants(kernel_formats(), Algo::Smart);
    let radial = table_variants(kernel_formats(), Algo::Radial);
    lemma_table_variants_distinct(kernel_formats(), Algo::Smart);
    lemma_table_variants_distinct(kernel_formats(), Algo::Radial);
    assert forall|x: VariantKey| smart.contains(x) implies !radial.contains(x) by {
        lemma_table_variants_contains(kernel_formats(), Algo::Smart, x);
        lemma_table_variants_contains(kernel_formats(), Algo::Radial, x);
    }
    lemma_concat_distinct(smart, radial);
}

/// The generated variants are exactly the registered keys.
pub proof fn lemma_variants_are_registered(key: VariantKey)
    ensures
        variants().contains(key) <==> is_registered(key),
{
    let smart = table_variants(kernel_formats(), Algo::Smart);
    let radial = table_variants(kernel_formats(), Algo::Radial);
    lemma_concat_contains(smart, radial, key);
    lemma_table_variants_contains(kernel_formats(), Algo::Smart, key);
    lemma_table_variants_contains(kernel_formats(), Algo::Radial, key);
}

/// The table holds every texel format.
pub proof fn lemma_kernel_formats(format: TexelFormat)
    ensures
        kernel_formats().contains(format),
{
    let t = kernel_formats();
    match format {
        TexelFormat::R8Uint => assert(t[0] == format),
        TexelFormat::R16Uint => assert(t[1] == format),
        TexelFormat::R8G8B8A8Uint => assert(t[2] == format),
        TexelFormat::R16G16B16A16Uint => assert(t[3] == format),
        TexelFormat::R32Sfloat => assert(t[4] == format),
        TexelFormat::R32G32B32A32Sfloat => assert(t[5] == format),
    }
}

/// The formats that kernels are generated for, in table order.
pub fn kernel_format_table() -> (table: Vec<TexelFormat>)
    ensures
        table@ == kernel_formats(),
{
    let mut table: Vec<TexelFormat> = Vec::new();
    table.push(TexelFormat::R8Uint);
    table.push(TexelFormat::R16Uint);
    table.push(TexelFormat::R8G8B8A8Uint);
    table.push(TexelFormat::R16G16B16A16Uint);
    table.push(TexelFormat::R32Sfloat);
    table.push(TexelFormat::R32G32B32A32Sfloat);
    assert(table@ =~= kernel_formats());
    table
}

/// Appends the variants of one format at one stage.
fn push_stage_variants(
    table: &mut Vec<VariantKey>,
    format: TexelFormat,
    stage: UsingShader,
    algorithm: Algo,
)
    ensures
        final(table)@ == old(table)@ + stage_variants(format, stage, algorithm),
{
    table.push(VariantKey { format, stage, hsv: false, algorithm });
    if format.channels() > 1 {
        table.push(VariantKey { format, stage, hsv: true, algorithm });
    }
    assert(table@ =~= old(table)@ + stage_variants(format, stage, algorithm));
}

/// Appends the variants of every table format for one algorithm.
fn push_algorithm_variants(table: &mut Vec<VariantKey>, formats: &Vec<TexelFormat>, algorithm: Algo)
    ensures
        final(table)@ == old(table)@ + table_variants(formats@, algorithm),
{
    let mut i: usize = 0;
    assert(formats@.take(0) =~= Seq::<TexelFormat>::empty());
    assert(table@ =~= old(table)@ + table_variants(formats@.take(0), algorithm));
    while i < formats.len()
        invariant
            0 <= i <= formats.len(),
            table@ == old(table)@ + table_variants(formats@.take(i as int), algorithm),
        decreases formats.len() - i,
    {
        let format = formats[i];
        push_stage_variants(table, format, UsingShader::Compute, algorithm);
        push_stage_variants(table, format, UsingShader::Fragment, algorithm);
        proof {
            let next = formats@.take(i + 1);
            assert(next.drop_last() =~= formats@.take(i as int));
            assert(next.last() == format);
            assert(table@ =~= old(table)@ + table_variants(next, algorithm));
        }
        i += 1;
    }
    assert(formats@.take(formats.len() as int) =~= formats@);
}

/// Every kernel variant, in generation order.
pub fn variant_table() -> (table: Vec<VariantKey>)
    ensures
        table@ == variants(),
{
    let formats = kernel_format_table();
    let mut table: Vec<VariantKey> = Vec::new();
    push_algorithm_variants(&mut table, &formats, Algo::Smart);
    push_algorithm_variants(&mut table, &formats, Algo::Radial);
    assert(table@ =~= variants());
    table
}

} // verus!
