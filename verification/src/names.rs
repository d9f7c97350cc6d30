//! The names under which formats, stages, algorithms and kernels appear in
//! the generated sources.

use vstd::prelude::*;
use crate::format::TexelFormat;
use crate::variant::{Algo, UsingShader, VariantKey};

verus! {

/// Width of the column that the format, the stage and the mode of a dispatch
/// arm share, so that the kernel paths line up.
pub const ARM_WIDTH: usize = 48;

/// Indentation of a dispatch arm.
pub const ARM_INDENT: usize = 12;

/// The format's name in a kernel's image layout qualifier.
pub open spec fn layout_name_spec(format: TexelFormat) -> Seq<char> {
    match format {
        TexelFormat::R8Uint => "r8ui"@,
        TexelFormat::R16Uint => "r16ui"@,
        TexelFormat::R8G8B8A8Uint => "rgba8ui"@,
        TexelFormat::R16G16B16A16Uint => "rgba16ui"@,
        TexelFormat::R32Sfloat => "r32f"@,
        TexelFormat::R32G32B32A32Sfloat => "rgba32f"@,
    }
}

/// The format's name on the host side of the dispatch table.
pub open spec fn host_name_spec(format: TexelFormat) -> Seq<char> {
    match format {
        TexelFormat::R8Uint => "R8_UINT"@,
        TexelFormat::R16Uint => "R16_UINT"@,
        TexelFormat::R8G8B8A8Uint => "R8G8B8A8_UINT"@,
        TexelFormat::R16G16B16A16Uint => "R16G16B16A16_UINT"@,
        TexelFormat::R32Sfloat => "R32_SFLOAT"@,
        TexelFormat::R32G32B32A32Sfloat => "R32G32B32A32_SFLOAT"@,
    }
}

/// The stage's name in a kernel's name.
pub open spec fn stage_name_spec(stage: UsingShader) -> Seq<char> {
    match stage {
        UsingShader::Compute => "compute"@,
        UsingShader::Fragment => "fragment"@,
    }
}

/// The stage as the dispatch table writes it.
pub open spec fn stage_path_spec(stage: UsingShader) -> Seq<char> {
    match stage {
        UsingShader::Compute => "UsingShader::Compute"@,
        UsingShader::Fragment => "UsingShader::Fragment"@,
    }
}

/// The algorithm as the dispatch table writes it.
pub open spec fn algo_name_spec(algorithm: Algo) -> Seq<char> {
    match algorithm {
        Algo::Smart => "Smart"@,
        Algo::Radial => "Radial"@,
    }
}

/// The algorithm's name in a kernel's name: lower case.
pub open spec fn algo_tag_spec(algorithm: Algo) -> Seq<char> {
    match algorithm {
        Algo::Smart => "smart"@,
        Algo::Radial => "radial"@,
    }
}

/// The mode's suffix in a kernel's name.
pub open spec fn hsv_suffix_spec(hsv: bool) -> Seq<char> {
    if hsv {
        "_hsv"@
    } else {
        ""@
    }
}

/// The mode as the dispatch table writes it.
pub open spec fn flag_text_spec(flag: bool) -> Seq<char> {
    if flag {
        "true"@
    } else {
        "false"@
    }
}

/// `count` blanks.
pub open spec fn blanks_spec(count: int) -> Seq<char> {
    Seq::new(count as nat, |i: int| ' ')
}

/// A kernel's name: stage, format, algorithm and mode, after a common prefix.
pub open spec fn kernel_name_spec(key: VariantKey) -> Seq<char> {
    "denoise_shader_"@ + stage_name_spec(key.stage) + "_"@ + layout_name_spec(key.format)
        + algo_tag_spec(key.algorithm) + hsv_suffix_spec(key.hsv)
}

/// The line that declares a kernel's module.
pub open spec fn module_line_spec(key: VariantKey) -> Seq<char> {
    "pub(crate) mod "@ + kernel_name_spec(key) + ";"@
}

/// The blanks between the arrow of a dispatch arm and the kernel's path.
pub open spec fn arm_padding_spec(key: VariantKey) -> int {
    ARM_WIDTH - (host_name_spec(key.format).len() + stage_path_spec(key.stage).len()
        + flag_text_spec(key.hsv).len())
}

/// The dispatch arm of a kernel.
pub open spec fn matcher_line_spec(key: VariantKey) -> Seq<char> {
    blanks_spec(ARM_INDENT as int) + "(Format::"@ + host_name_spec(key.format) + ", "@
        + stage_path_spec(key.stage) + ", "@ + flag_text_spec(key.hsv) + ", Algo::"@
        + algo_name_spec(key.algorithm) + ") => "@ + blanks_spec(arm_padding_spec(key))
        + kernel_name_spec(key) + "::load(device.clone()),"@
}

/// The lengths of the host names.
pub proof fn lemma_host_name_len(format: TexelFormat)
    ensures
        host_name_spec(format).len() == match format {
            TexelFormat::R8Uint => 7nat,
            TexelFormat::R16Uint => 8nat,
            TexelFormat::R8G8B8A8Uint => 13nat,
            TexelFormat::R16G16B16A16Uint => 17nat,
            TexelFormat::R32Sfloat => 10nat,
            TexelFormat::R32G32B32A32Sfloat => 19nat,
        },
{
    reveal_strlit("R8_UINT");
    reveal_strlit("R16_UINT");
    reveal_strlit("R8G8B8A8_UINT");
    reveal_strlit("R16G16B16A16_UINT");
    reveal_strlit("R32_SFLOAT");
    reveal_strlit("R32G32B32A32_SFLOAT");
}

/// The padding of a dispatch arm: what the three columns leave of the common width.
pub proof fn lemma_arm_padding(key: VariantKey)
    ensures
        arm_padding_spec(key) == ARM_WIDTH - host_name_spec(key.format).len() - (match key.stage {
            UsingShader::Compute => 20int,
            UsingShader::Fragment => 21int,
        }) - (if key.hsv {
            4int
        } else {
            5int
        }),
        3 <= arm_padding_spec(key) <= 17,
{
    lemma_host_name_len(key.format);
    reveal_strlit("UsingShader::Compute");
    reveal_strlit("UsingShader::Fragment");
    reveal_strlit("true");
    reveal_strlit("false");
}

/// The key that a kernel's name was made from, read off a few of its
/// characters and its length.
pub open spec fn key_of_name(name: Seq<char>) -> VariantKey {
    let stage = if name[15] == 'c' {
        UsingShader::Compute
    } else {
        UsingShader::Fragment
    };
    let base: int = 16 + stage_name_spec(stage).len() as int;
    let format = if name[base + 1] == '8' {
        TexelFormat::R8Uint
    } else if name[base + 1] == '1' {
        TexelFormat::R16Uint
    } else if name[base + 1] == '3' {
        TexelFormat::R32Sfloat
    } else if name[base + 4] == '8' {
        TexelFormat::R8G8B8A8Uint
    } else if name[base + 4] == '1' {
        TexelFormat::R16G16B16A16Uint
    } else {
        TexelFormat::R32G32B32A32Sfloat
    };
    let tag: int = base + layout_name_spec(format).len();
    let algorithm = if name[tag] == 's' {
        Algo::Smart
    } else {
        Algo::Radial
    };
    let hsv = name.len() > tag + algo_tag_spec(algorithm).len();
    VariantKey { format, stage, hsv, algorithm }
}

/// What the parts of a kernel's name hold where `key_of_name` looks.
proof fn lemma_name_parts()
    ensures
        "denoise_shader_"@.len() == 15,
        "_"@.len() == 1,
        "compute"@.len() == 7 && "compute"@[0] == 'c',
        "fragment"@.len() == 8 && "fragment"@[0] == 'f',
        "r8ui"@.len() == 4 && "r8ui"@[1] == '8',
        "r16ui"@.len() == 5 && "r16ui"@[1] == '1',
        "r32f"@.len() == 4 && "r32f"@[1] == '3',
        "rgba8ui"@.len() == 7 && "rgba8ui"@[1] == 'g' && "rgba8ui"@[4] == '8',
        "rgba16ui"@.len() == 8 && "rgba16ui"@[1] == 'g' && "rgba16ui"@[4] == '1',
        "rgba32f"@.len() == 7 && "rgba32f"@[1] == 'g' && "rgba32f"@[4] == '3',
        "smart"@.len() == 5 && "smart"@[0] == 's',
        "radial"@.len() == 6 && "radial"@[0] == 'r',
        "_hsv"@.len() == 4,
        ""@.len() == 0,
{
    reveal_strlit("denoise_shader_");
    reveal_strlit("_");
    reveal_strlit("compute");
    reveal_strlit("fragment");
    reveal_strlit("r8ui");
    reveal_strlit("r16ui");
    reveal_strlit("r32f");
    reveal_strlit("rgba8ui");
    reveal_strlit("rgba16ui");
    reveal_strlit("rgba32f");
    reveal_strlit("smart");
    reveal_strlit("radial");
    reveal_strlit("_hsv");
    reveal_strlit("");
}

/// A kernel's name tells its key.
pub proof fn lemma_key_of_name(key: VariantKey)
    ensures
        key_of_name(kernel_name_spec(key)) == key,
{
    lemma_name_parts();
    let stage = stage_name_spec(key.stage);
    let layout = layout_name_spec(key.format);
    let tag = algo_tag_spec(key.algorithm);
    let suffix = hsv_suffix_spec(key.hsv);
    let name = kernel_name_spec(key);
    let base: int = 16 + stage.len() as int;
    assert(name.len() == base + layout.len() + tag.len() + suffix.len());
    assert(name[15] == stage[0]);
    assert(name[base + 1] == layout[1]);
    if layout.len() > 5 {
        assert(name[base + 4] == layout[4]);
    }
    assert(name[base + layout.len()] == tag[0]);
}

/// Two kernels have one name only if they are one: no generated file
/// overwrites another.
pub proof fn lemma_kernel_names_distinct(a: VariantKey, b: VariantKey)
    requires
        a != b,
    ensures
        kernel_name_spec(a) != kernel_name_spec(b),
{
    lemma_key_of_name(a);
    lemma_key_of_name(b);
}

/// The format's name in a kernel's image layout qualifier.
pub fn layout_name(format: TexelFormat) -> (name: &'static str)
    ensures
        name@ == layout_name_spec(format),
{
    match format {
        TexelFormat::R8Uint => "r8ui",
        TexelFormat::R16Uint => "r16ui",
        TexelFormat::R8G8B8A8Uint => "rgba8ui",
        TexelFormat::R16G16B16A16Uint => "rgba16ui",
        TexelFormat::R32Sfloat => "r32f",
        TexelFormat::R32G32B32A32Sfloat => "rgba32f",
    }
}

/// The format's name on the host side of the dispatch table.
pub fn host_name(format: TexelFormat) -> (name: &'static str)
    ensures
        name@ == host_name_spec(format),
{
    match format {
        TexelFormat::R8Uint => "R8_UINT",
        TexelFormat::R16Uint => "R16_UINT",
        TexelFormat::R8G8B8A8Uint => "R8G8B8A8_UINT",
        TexelFormat::R16G16B16A16Uint => "R16G16B16A16_UINT",
        TexelFormat::R32Sfloat => "R32_SFLOAT",
        TexelFormat::R32G32B32A32Sfloat => "R32G32B32A32_SFLOAT",
    }
}

/// The stage's name in a kernel's name.
pub fn stage_name(stage: UsingShader) -> (name: &'static str)
    ensures
        name@ == stage_name_spec(stage),
{
    match stage {
        UsingShader::Compute => "compute",
        UsingShader::Fragment => "fragment",
    }
}

/// The stage as the dispatch table writes it.
pub fn stage_path(stage: UsingShader) -> (name: &'static str)
    ensures
        name@ == stage_path_spec(stage),
{
    match stage {
        UsingShader::Compute => "UsingShader::Compute",
        UsingShader::Fragment => "UsingShader::Fragment",
    }
}

/// The algorithm as the dispatch table writes it.
pub fn algo_name(algorithm: Algo) -> (name: &'static str)
    ensures
        name@ == algo_name_spec(algorithm),
{
    match algorithm {
        Algo::Smart => "Smart",
        Algo::Radial => "Radial",
    }
}

/// The algorithm's name in a kernel's name.
pub fn algo_tag(algorithm: Algo) -> (name: &'static str)
    ensures
        name@ == algo_tag_spec(algorithm),
{
    match algorithm {
        Algo::Smart => "smart",
        Algo::Radial => "radial",
    }
}

/// The mode's suffix in a kernel's name.
pub fn hsv_suffix(hsv: bool) -> (suffix: &'static str)
    ensures
        suffix@ == hsv_suffix_spec(hsv),
{
    if hsv {
        "_hsv"
    } else {
        ""
    }
}

/// The mode as the dispatch table writes it.
pub fn flag_text(flag: bool) -> (text: &'static str)
    ensures
        text@ == flag_text_spec(flag),
{
    if flag {
        "true"
    } else {
        "false"
    }
}

/// Appends `count` blanks to `text`.
fn push_blanks(text: &mut String, count: usize)
    ensures
        final(text)@ == old(text)@ + blanks_spec(count as int),
{
    let mut i: usize = 0;
    assert(text@ =~= old(text)@ + blanks_spec(0));
    while i < count
        invariant
            0 <= i <= count,
            text@ == old(text)@ + blanks_spec(i as int),
        decreases count - i,
    {
        proof {
            reveal_strlit(" ");
        }
        text.append(" ");
        i += 1;
        assert(text@ =~= old(text)@ + blanks_spec(i as int));
    }
}

/// A kernel's name.
pub fn kernel_name(key: VariantKey) -> (name: String)
    ensures
        name@ == kernel_name_spec(key),
{
    let mut name = String::from_str("denoise_shader_");
    name.append(stage_name(key.stage));
    name.append("_");
    name.append(layout_name(key.format));
    name.append(algo_tag(key.algorithm));
    name.append(hsv_suffix(key.hsv));
    name
}

/// The line that declares a kernel's module.
pub fn module_line(key: VariantKey) -> (line: String)
    ensures
        line@ == module_line_spec(key),
{
    let mut line = String::from_str("pub(crate) mod ");
    let name = kernel_name(key);
    line.append(name.as_str());
    line.append(";");
    line
}

/// The dispatch arm of a kernel.
pub fn matcher_line(key: VariantKey) -> (line: String)
    ensures
        line@ == matcher_line_spec(key),
{
    let host = host_name(key.format);
    let stage = stage_path(key.stage);
    let flag = flag_text(key.hsv);
    proof {
        lemma_arm_padding(key);
        lemma_host_name_len(key.format);
    }
    let padding: usize = ARM_WIDTH - (host.unicode_len() + stage.unicode_len()
        + flag.unicode_len());
    let mut line = String::new();
    push_blanks(&mut line, ARM_INDENT);
    line.append("(Format::");
    line.append(host);
    line.append(", ");
    line.append(stage);
    line.append(", ");
    line.append(flag);
    line.append(", Algo::");
    line.append(algo_name(key.algorithm));
    line.append(") => ");
    push_blanks(&mut line, padding);
    let name = kernel_name(key);
    line.append(name.as_str());
    line.append("::load(device.clone()),");
    assert(line@ =~= matcher_line_spec(key));
    line
}

} // verus!
