//! The variant generator: from the templates of the two algorithms to one
//! kernel source per variant and the source of the dispatch table.

use std::collections::BTreeMap;
use vstd::prelude::*;
use crate::format::TexelFormat;
use crate::names::{
    kernel_name, kernel_name_spec, layout_name, layout_name_spec, lemma_kernel_names_distinct,
    matcher_line, matcher_line_spec, module_line, module_line_spec, stage_name, stage_name_spec,
    stage_path, stage_path_spec,
};
use crate::selector::select;
use crate::template::{is_plain, is_plain_template};
use crate::variant::{
    is_registered, lemma_variants_distinct, variant_table, variants, Algo, VariantKey,
};

verus! {

/// What stands between the module declarations and the dispatch arms.
pub const DISPATCH_HEADER: &'static str = r#"

use std::sync::Arc;
use vulkano::format::Format;
use vulkano::device::Device;
use vulkano::shader::ShaderModule;
use crate::UsingShader;
use crate::Algo;

    pub(crate) fn get_denoise_shader(device: Arc<Device>, format: Format, shader_type: UsingShader, use_hsv: bool, algo: Algo) -> Arc<ShaderModule> {
        match (format, shader_type, use_hsv, algo) {"#;

/// What closes the dispatch table: any other tuple has no kernel.
pub const DISPATCH_FOOTER: &'static str = r#"
            _ => unimplemented!(),
        }.unwrap()
    }
    "#;

/// Why the kernel sources could not be generated.
#[derive(Debug, Clone, Copy, PartialEq, Eq, Structural)]
pub enum GenerateError {
    /// The key has no place in the variant table.
    InvalidVariant,
    /// A template is not plain: the engine is not handed it.
    NotPlain,
    /// The engine could not render a template.
    Template,
    /// There is not one kernel source for each variant.
    Incomplete,
}

/// One generated source file.
#[derive(Debug, PartialEq, Eq)]
pub struct SourceFile {
    /// The module's name.
    pub name: String,
    /// The module's text.
    pub contents: String,
}

/// Everything the generator emits.
#[derive(Debug, PartialEq, Eq)]
pub struct GeneratedSources {
    /// One kernel source per variant, in table order.
    pub kernels: Vec<SourceFile>,
    /// The source of the dispatch table over the same variants.
    pub dispatch: String,
}

/// The module declarations, one per line.
pub open spec fn module_lines_spec(keys: Seq<VariantKey>) -> Seq<char>
    decreases keys.len(),
{
    if keys.len() == 0 {
        Seq::empty()
    } else if keys.len() == 1 {
        module_line_spec(keys[0])
    } else {
        module_lines_spec(keys.drop_last()) + "\n"@ + module_line_spec(keys.last())
    }
}

/// The dispatch arms, each on a line of its own after an empty line.
pub open spec fn matcher_lines_spec(keys: Seq<VariantKey>) -> Seq<char>
    decreases keys.len(),
{
    if keys.len() == 0 {
        "\n"@
    } else {
        matcher_lines_spec(keys.drop_last()) + "\n"@ + matcher_line_spec(keys.last())
    }
}

/// The source of the dispatch table over `keys`.
pub open spec fn dispatch_source_spec(keys: Seq<VariantKey>) -> Seq<char> {
    module_lines_spec(keys) + DISPATCH_HEADER@ + matcher_lines_spec(keys) + DISPATCH_FOOTER@
}

/// The source of the dispatch table over `keys`: the kernels' module
/// declarations, then a function that maps each key to its kernel.
pub fn dispatch_source(keys: &Vec<VariantKey>) -> (text: String)
    ensures
        text@ == dispatch_source_spec(keys@),
{
    let mut text = String::new();
    let mut i: usize = 0;
    assert(keys@.take(0) =~= Seq::<VariantKey>::empty());
    while i < keys.len()
        invariant
            0 <= i <= keys.len(),
            text@ == module_lines_spec(keys@.take(i as int)),
        decreases keys.len() - i,
    {
        if i > 0 {
            text.append("\n");
        }
        let line = module_line(keys[i]);
        text.append(line.as_str());
        proof {
            let next = keys@.take(i + 1);
            assert(next.drop_last() =~= keys@.take(i as int));
            assert(next.last() == keys@[i as int]);
            if i == 0 {
                assert(text@ =~= module_line_spec(next[0]));
            }
        }
        i += 1;
    }
    assert(keys@.take(keys.len() as int) =~= keys@);
    text.append(DISPATCH_HEADER);
    let ghost head = text@;
    text.append("\n");
    i = 0;
    while i < keys.len()
        invariant
            0 <= i <= keys.len(),
            head == module_lines_spec(keys@) + DISPATCH_HEADER@,
            text@ == head + matcher_lines_spec(keys@.take(i as int)),
        decreases keys.len() - i,
    {
        text.append("\n");
        let line = matcher_line(keys[i]);
        text.append(line.as_str());
        proof {
            let next = keys@.take(i + 1);
            assert(next.drop_last() =~= keys@.take(i as int));
            assert(next.last() == keys@[i as int]);
            assert(text@ =~= head + matcher_lines_spec(next));
        }
        i += 1;
    }
    text.append(DISPATCH_FOOTER);
    assert(text@ =~= dispatch_source_spec(keys@));
    text
}

/// The largest value a sample of the format can hold, as the kernel's
/// clamp writes it; a floating-point format has none.
pub open spec fn max_val_spec(format: TexelFormat) -> Option<Seq<char>> {
    match format {
        TexelFormat::R8Uint | TexelFormat::R8G8B8A8Uint => Some("255"@),
        TexelFormat::R16Uint | TexelFormat::R16G16B16A16Uint => Some("65535"@),
        TexelFormat::R32Sfloat | TexelFormat::R32G32B32A32Sfloat => None,
    }
}

/// The components of a texel that the kernel reads and writes.
pub open spec fn swizzle_spec(format: TexelFormat) -> Seq<char> {
    if format.channel_count() > 1 {
        "rgba"@
    } else {
        "r"@
    }
}

/// The type the kernel accumulates in.
pub open spec fn processing_type_spec(format: TexelFormat) -> Seq<char> {
    if format.channel_count() > 1 {
        "vec4"@
    } else {
        "float"@
    }
}

/// The type the kernel stores.
pub open spec fn output_type_spec(format: TexelFormat) -> Seq<char> {
    if format.is_float() {
        "vec4"@
    } else {
        "uvec4"@
    }
}

/// The template parameters of a format, as name and value.
pub open spec fn format_data_spec(format: TexelFormat) -> Seq<(Seq<char>, Seq<char>)> {
    seq![("output_format"@, layout_name_spec(format))] + (match max_val_spec(format) {
        Some(max_val) => seq![("max_val"@, max_val)],
        None => Seq::empty(),
    }) + seq![
        ("swizzle_vec"@, swizzle_spec(format)),
        ("processing_t"@, processing_type_spec(format)),
        ("output_t"@, output_type_spec(format)),
    ] + (if format.is_float() {
        Seq::empty()
    } else {
        seq![("is_int_type"@, "true"@)]
    }) + (if format.channel_count() > 1 {
        seq![("is_vector_type"@, "true"@)]
    } else {
        Seq::empty()
    })
}

/// The template parameters of a variant: those of its format, then its
/// stage under the stage's own name and as the dispatch table writes it,
/// then the mode's suffix where the variant is hue/value-isolated.
pub open spec fn template_data_spec(key: VariantKey) -> Seq<(Seq<char>, Seq<char>)> {
    format_data_spec(key.format) + seq![
        (stage_name_spec(key.stage), stage_name_spec(key.stage)),
        ("shadert_enum_val"@, stage_path_spec(key.stage)),
    ] + (if key.hsv {
        seq![("is_hsv"@, "_hsv"@)]
    } else {
        Seq::empty()
    })
}

/// No two pairs have the same name.
pub open spec fn distinct_names(data: Seq<(Seq<char>, Seq<char>)>) -> bool {
    forall|i: int, j: int| 0 <= i < j < data.len() ==> data[i].0 != data[j].0
}

/// The place of a parameter's name in the order in which a variant lists
/// its parameters; the two stages share a place.
pub open spec fn name_place(name: Seq<char>) -> int {
    if name == "output_format"@ {
        0
    } else if name == "max_val"@ {
        1
    } else if name == "swizzle_vec"@ {
        2
    } else if name == "processing_t"@ {
        3
    } else if name == "output_t"@ {
        4
    } else if name == "is_int_type"@ {
        5
    } else if name == "is_vector_type"@ {
        6
    } else if name == "compute"@ || name == "fragment"@ {
        7
    } else if name == "shadert_enum_val"@ {
        8
    } else {
        9
    }
}

/// A variant lists each of its parameters once.
pub proof fn lemma_template_data_names(key: VariantKey)
    ensures
        distinct_names(template_data_spec(key)),
{
    lemma_name_places();
    let data = template_data_spec(key);
    assert forall|i: int, j: int| 0 <= i < j < data.len() implies name_place(data[i].0)
        < name_place(data[j].0) by {}
}

/// The places of the eleven names.
proof fn lemma_name_places()
    ensures
        name_place("output_format"@) == 0,
        name_place("max_val"@) == 1,
        name_place("swizzle_vec"@) == 2,
        name_place("processing_t"@) == 3,
        name_place("output_t"@) == 4,
        name_place("is_int_type"@) == 5,
        name_place("is_vector_type"@) == 6,
        name_place("compute"@) == 7,
        name_place("fragment"@) == 7,
        name_place("shadert_enum_val"@) == 8,
        name_place("is_hsv"@) == 9,
{
    reveal_strlit("output_format");
    reveal_strlit("max_val");
    reveal_strlit("swizzle_vec");
    reveal_strlit("processing_t");
    reveal_strlit("output_t");
    reveal_strlit("is_int_type");
    reveal_strlit("is_vector_type");
    reveal_strlit("compute");
    reveal_strlit("fragment");
    reveal_strlit("shadert_enum_val");
    reveal_strlit("is_hsv");
    assert("output_format"@.len() == 13);
    assert("max_val"@.len() == 7 && "max_val"@[0] == 'm');
    assert("swizzle_vec"@.len() == 11 && "swizzle_vec"@[0] == 's');
    assert("processing_t"@.len() == 12);
    assert("output_t"@.len() == 8 && "output_t"@[0] == 'o');
    assert("is_int_type"@.len() == 11 && "is_int_type"@[0] == 'i');
    assert("is_vector_type"@.len() == 14);
    assert("compute"@.len() == 7 && "compute"@[0] == 'c');
    assert("fragment"@.len() == 8 && "fragment"@[0] == 'f');
    assert("shadert_enum_val"@.len() == 16);
    assert("is_hsv"@.len() == 6);
}

/// A list of name and value pairs as sequences of characters.
pub open spec fn pairs_view(pairs: Seq<(&'static str, &'static str)>) -> Seq<
    (Seq<char>, Seq<char>),
> {
    Seq::new(pairs.len(), |i: int| (pairs[i].0@, pairs[i].1@))
}

/// Appends one pair.
fn push_entry(
    data: &mut Vec<(&'static str, &'static str)>,
    name: &'static str,
    value: &'static str,
)
    ensures
        pairs_view(final(data)@) == pairs_view(old(data)@).push((name@, value@)),
{
    data.push((name, value));
    assert(pairs_view(data@) =~= pairs_view(old(data)@).push((name@, value@)));
}

/// The template parameters of a variant.
pub fn template_data(key: VariantKey) -> (data: Vec<(&'static str, &'static str)>)
    ensures
        pairs_view(data@) == template_data_spec(key),
{
    let format = key.format;
    let vector = format.channels() > 1;
    let mut data: Vec<(&'static str, &'static str)> = Vec::new();
    assert(pairs_view(data@) =~= Seq::empty());
    push_entry(&mut data, "output_format", layout_name(format));
    match format {
        TexelFormat::R8Uint | TexelFormat::R8G8B8A8Uint => {
            push_entry(&mut data, "max_val", "255");
        },
        TexelFormat::R16Uint | TexelFormat::R16G16B16A16Uint => {
            push_entry(&mut data, "max_val", "65535");
        },
        TexelFormat::R32Sfloat | TexelFormat::R32G32B32A32Sfloat => {},
    }
    push_entry(
        &mut data,
        "swizzle_vec",
        if vector {
            "rgba"
        } else {
            "r"
        },
    );
    push_entry(
        &mut data,
        "processing_t",
        if vector {
            "vec4"
        } else {
            "float"
        },
    );
    match format {
        TexelFormat::R32Sfloat | TexelFormat::R32G32B32A32Sfloat => {
            push_entry(&mut data, "output_t", "vec4");
        },
        _ => {
            push_entry(&mut data, "output_t", "uvec4");
            push_entry(&mut data, "is_int_type", "true");
        },
    }
    if vector {
        push_entry(&mut data, "is_vector_type", "true");
    }
    assert(pairs_view(data@) =~= format_data_spec(format));
    push_entry(&mut data, stage_name(key.stage), stage_name(key.stage));
    push_entry(&mut data, "shadert_enum_val", stage_path(key.stage));
    if key.hsv {
        push_entry(&mut data, "is_hsv", "_hsv");
    }
    assert(pairs_view(data@) =~= template_data_spec(key));
    data
}

/// The template engine's error, `handlebars::RenderError`: carried from the
/// engine to the place that turns it into an error of this library.
#[verifier::external_type_specification]
#[verifier::external_body]
pub struct ExRenderError(handlebars::RenderError);

/// Renders `template` with `handlebars::Handlebars::render_template`, on a
/// registry as it is created, with each pair as one field of the data
/// object. Nothing is claimed of what comes back: whether the engine
/// parses a template depends also on the stack that the thread has left and
/// on a limit that any code of the process may set.
///
/// The template has to be plain. The engine expands a partial that calls
/// itself without end, and an inline definition is the way to make one on
/// a registry that holds none. It renders a block inside a block, and a
/// sub-expression inside a sub-expression, by calling itself, and some
/// hundreds of levels exhaust the stack of a thread. A block that walks
/// over the data again inside each step of such a walk, which takes a block
/// parameter or a path up or to the root of the data, multiplies the work
/// with every level.
#[verifier::external_body]
fn render_template(template: &str, data: &Vec<(&'static str, &'static str)>) -> (r: Result<
    String,
    handlebars::RenderError,
>)
    requires
        is_plain(template@),
        distinct_names(pairs_view(data@)),
{
    let fields: BTreeMap<&str, &str> = data.iter().cloned().collect();
    handlebars::Handlebars::new().render_template(template, &fields)
}

/// Turns the engine's answer into the generator's: the text where there is
/// one, and a template error where there is none.
pub fn kernel_source(outcome: Option<String>) -> (r: Result<String, GenerateError>)
    ensures
        match outcome {
            Some(text) => r == Ok::<String, GenerateError>(text),
            None => r == Err::<String, GenerateError>(GenerateError::Template),
        },
{
    match outcome {
        Some(text) => Ok(text),
        None => Err(GenerateError::Template),
    }
}

/// Hands a plain template and the parameters of a variant to the engine.
fn render_plain(template: &str, key: VariantKey) -> (r: Result<String, GenerateError>)
    requires
        is_plain(template@),
    ensures
        r is Ok || r == Err::<String, GenerateError>(GenerateError::Template),
{
    let data = template_data(key);
    proof {
        lemma_template_data_names(key);
    }
    let outcome = match render_template(template, &data) {
        Ok(text) => Some(text),
        Err(_) => None,
    };
    kernel_source(outcome)
}

/// Renders the kernel source of one variant from its algorithm's template.
///
/// A key without a place in the variant table, such as one that asks for
/// hue/value isolation on a single-channel format, is refused before the
/// template is looked at. A template that is not plain is refused before
/// the engine sees it. What the engine makes of a plain template is its
/// own: the text, or a template error.
pub fn render_kernel(template: &str, key: VariantKey) -> (r: Result<String, GenerateError>)
    ensures
        !is_registered(key) ==> r == Err::<String, GenerateError>(GenerateError::InvalidVariant),
        is_registered(key) && !is_plain(template@) ==> r == Err::<String, GenerateError>(
            GenerateError::NotPlain,
        ),
        is_registered(key) && is_plain(template@) ==> (r is Ok || r == Err::<
            String,
            GenerateError,
        >(GenerateError::Template)),
{
    if select(key.format, key.stage, key.hsv, key.algorithm).is_err() {
        return Err(GenerateError::InvalidVariant);
    }
    if !is_plain_template(template) {
        return Err(GenerateError::NotPlain);
    }
    render_plain(template, key)
}

/// Whether `sources` holds `texts` as the kernels of the variant table, each
/// under its name, with the dispatch table over the same variants.
pub open spec fn is_assembly_of(sources: GeneratedSources, texts: Seq<Seq<char>>) -> bool {
    &&& sources.kernels@.len() == variants().len()
    &&& texts.len() == variants().len()
    &&& forall|i: int|
        0 <= i < variants().len() ==> {
            &&& (#[trigger] sources.kernels@[i]).name@ == kernel_name_spec(variants()[i])
            &&& sources.kernels@[i].contents@ == texts[i]
        }
    &&& sources.dispatch@ == dispatch_source_spec(variants())
}

/// The kernels of the variant table have pairwise different names.
pub proof fn lemma_kernel_files_distinct()
    ensures
        forall|i: int, j: int|
            0 <= i < variants().len() && 0 <= j < variants().len() && i != j
                ==> kernel_name_spec(variants()[i]) != kernel_name_spec(variants()[j]),
{
    lemma_variants_distinct();
    assert forall|i: int, j: int|
        0 <= i < variants().len() && 0 <= j < variants().len() && i != j implies kernel_name_spec(
        variants()[i],
    ) != kernel_name_spec(variants()[j]) by {
        lemma_kernel_names_distinct(variants()[i], variants()[j]);
    }
}

/// A list of texts as sequences of characters.
pub open spec fn texts_view(texts: Seq<String>) -> Seq<Seq<char>> {
    Seq::new(texts.len(), |i: int| texts[i]@)
}

/// Puts the kernel texts, one per variant and in table order, together with
/// their names and with the dispatch table. Any other number of texts is refused.
pub fn assemble(texts: Vec<String>) -> (r: Result<GeneratedSources, GenerateError>)
    ensures
        match r {
            Ok(sources) => is_assembly_of(sources, texts_view(texts@)),
            Err(e) => e == GenerateError::Incomplete && texts@.len() != variants().len(),
        },
{
    let table = variant_table();
    if texts.len() != table.len() {
        return Err(GenerateError::Incomplete);
    }
    let mut kernels: Vec<SourceFile> = Vec::new();
    let mut i: usize = 0;
    while i < table.len()
        invariant
            0 <= i <= table.len(),
            table@ == variants(),
            texts@.len() == table@.len(),
            kernels@.len() == i,
            forall|j: int|
                0 <= j < i ==> {
                    &&& (#[trigger] kernels@[j]).name@ == kernel_name_spec(variants()[j])
                    &&& kernels@[j].contents@ == texts@[j]@
                },
        decreases table.len() - i,
    {
        kernels.push(SourceFile { name: kernel_name(table[i]), contents: texts[i].clone() });
        i += 1;
    }
    let dispatch = dispatch_source(&table);
    Ok(GeneratedSources { kernels, dispatch })
}

/// Generates the source of every kernel variant from the templates of the
/// two algorithms, and the dispatch table over the same variants.
///
/// Both templates have to be plain: otherwise nothing is rendered. Each
/// kernel is then what the template engine makes of its algorithm's
/// template and its variant's parameters, and the first template error of
/// the engine ends the generation.
pub fn generate_shaders(smart_template: &str, radial_template: &str) -> (r: Result<
    GeneratedSources,
    GenerateError,
>)
    ensures
        !(is_plain(smart_template@) && is_plain(radial_template@)) ==> r == Err::<
            GeneratedSources,
            GenerateError,
        >(GenerateError::NotPlain),
        is_plain(smart_template@) && is_plain(radial_template@) ==> match r {
            Ok(sources) => {
                &&& sources.kernels@.len() == variants().len()
                &&& forall|i: int|
                    0 <= i < variants().len() ==> (#[trigger] sources.kernels@[i]).name@
                        == kernel_name_spec(variants()[i])
                &&& sources.dispatch@ == dispatch_source_spec(variants())
            },
            Err(e) => e == GenerateError::Template,
        },
{
    if !is_plain_template(smart_template) || !is_plain_template(radial_template) {
        return Err(GenerateError::NotPlain);
    }
    let table = variant_table();
    let mut texts: Vec<String> = Vec::new();
    let mut i: usize = 0;
    while i < table.len()
        invariant
            0 <= i <= table.len(),
            table@ == variants(),
            texts@.len() == i,
            is_plain(smart_template@),
            is_plain(radial_template@),
        decreases table.len() - i,
    {
        let key = table[i];
        let template = match key.algorithm {
            Algo::Smart => smart_template,
            Algo::Radial => radial_template,
        };
        match render_plain(template, key) {
            Ok(text) => {
                texts.push(text);
            },
            Err(e) => {
                return Err(e);
            },
        }
        i += 1;
    }
    assemble(texts)
}

} // verus!
