use smart_denoise::names::{kernel_name, matcher_line, module_line};
use smart_denoise::generator::kernel_source;
use smart_denoise::{
    assemble, dispatch_source, generate_shaders, render_kernel, template_data, variant_table,
    Algo, GenerateError, TexelFormat, UsingShader, VariantKey,
};

fn key(format: TexelFormat, stage: UsingShader, hsv: bool, algorithm: Algo) -> VariantKey {
    VariantKey { format, stage, hsv, algorithm }
}

const HEADER: &str = "\n\nuse std::sync::Arc;\nuse vulkano::format::Format;\nuse vulkano::device::Device;\nuse vulkano::shader::ShaderModule;\nuse crate::UsingShader;\nuse crate::Algo;\n\n    pub(crate) fn get_denoise_shader(device: Arc<Device>, format: Format, shader_type: UsingShader, use_hsv: bool, algo: Algo) -> Arc<ShaderModule> {\n        match (format, shader_type, use_hsv, algo) {";

#[test]
fn kernel_names_join_stage_format_algorithm_and_mode() {
    assert_eq!(
        kernel_name(key(TexelFormat::R8Uint, UsingShader::Compute, false, Algo::Smart)),
        "denoise_shader_compute_r8uismart"
    );
    assert_eq!(
        kernel_name(key(TexelFormat::R16G16B16A16Uint, UsingShader::Fragment, true, Algo::Radial)),
        "denoise_shader_fragment_rgba16uiradial_hsv"
    );
    assert_eq!(
        kernel_name(key(TexelFormat::R32Sfloat, UsingShader::Fragment, false, Algo::Smart)),
        "denoise_shader_fragment_r32fsmart"
    );
}

#[test]
fn module_lines_declare_the_kernel() {
    assert_eq!(
        module_line(key(TexelFormat::R8G8B8A8Uint, UsingShader::Compute, true, Algo::Smart)),
        "pub(crate) mod denoise_shader_compute_rgba8uismart_hsv;"
    );
}

#[test]
fn matcher_lines_are_aligned() {
    assert_eq!(
        matcher_line(key(TexelFormat::R8Uint, UsingShader::Compute, false, Algo::Smart)),
        "            (Format::R8_UINT, UsingShader::Compute, false, Algo::Smart) =>                 denoise_shader_compute_r8uismart::load(device.clone()),"
    );
    assert_eq!(
        matcher_line(key(TexelFormat::R16G16B16A16Uint, UsingShader::Fragment, true, Algo::Radial)),
        "            (Format::R16G16B16A16_UINT, UsingShader::Fragment, true, Algo::Radial) =>       denoise_shader_fragment_rgba16uiradial_hsv::load(device.clone()),"
    );
}

#[test]
fn matcher_lines_agree_with_formatted_text() {
    for k in variant_table() {
        let host = match k.format {
            TexelFormat::R8Uint => "R8_UINT",
            TexelFormat::R16Uint => "R16_UINT",
            TexelFormat::R8G8B8A8Uint => "R8G8B8A8_UINT",
            TexelFormat::R16G16B16A16Uint => "R16G16B16A16_UINT",
            TexelFormat::R32Sfloat => "R32_SFLOAT",
            TexelFormat::R32G32B32A32Sfloat => "R32G32B32A32_SFLOAT",
        };
        let stage = match k.stage {
            UsingShader::Compute => "UsingShader::Compute",
            UsingShader::Fragment => "UsingShader::Fragment",
        };
        let algorithm = match k.algorithm {
            Algo::Smart => "Smart",
            Algo::Radial => "Radial",
        };
        let name = kernel_name(k);
        let align = 48 - (host.len() + stage.len() + k.hsv.to_string().len());
        let expected = format!(
            "{:>12}(Format::{}, {}, {}, Algo::{}) => {:align$}{}::load(device.clone()),",
            "", host, stage, k.hsv, algorithm, "", &name
        );
        assert_eq!(matcher_line(k), expected);
    }
}

#[test]
fn dispatch_source_of_two_kernels() {
    let keys = vec![
        key(TexelFormat::R8Uint, UsingShader::Compute, false, Algo::Smart),
        key(TexelFormat::R8G8B8A8Uint, UsingShader::Fragment, true, Algo::Radial),
    ];
    let expected = format!(
        "{}\n{}{}\n\n{}\n{}\n            _ => unimplemented!(),\n        }}.unwrap()\n    }}\n    ",
        module_line(keys[0]),
        module_line(keys[1]),
        HEADER,
        matcher_line(keys[0]),
        matcher_line(keys[1]),
    );
    assert_eq!(dispatch_source(&keys), expected);
}

#[test]
fn dispatch_source_without_kernels() {
    let expected =
        format!("{}\n\n            _ => unimplemented!(),\n        }}.unwrap()\n    }}\n    ", HEADER);
    assert_eq!(dispatch_source(&vec![]), expected);
}

#[test]
fn template_data_of_an_integer_vector_format() {
    let k = key(TexelFormat::R16G16B16A16Uint, UsingShader::Compute, true, Algo::Smart);
    assert_eq!(
        template_data(k),
        vec![
            ("output_format", "rgba16ui"),
            ("max_val", "65535"),
            ("swizzle_vec", "rgba"),
            ("processing_t", "vec4"),
            ("output_t", "uvec4"),
            ("is_int_type", "true"),
            ("is_vector_type", "true"),
            ("compute", "compute"),
            ("shadert_enum_val", "UsingShader::Compute"),
            ("is_hsv", "_hsv"),
        ]
    );
}

#[test]
fn template_data_of_a_single_channel_integer_format() {
    let k = key(TexelFormat::R8Uint, UsingShader::Fragment, false, Algo::Radial);
    assert_eq!(
        template_data(k),
        vec![
            ("output_format", "r8ui"),
            ("max_val", "255"),
            ("swizzle_vec", "r"),
            ("processing_t", "float"),
            ("output_t", "uvec4"),
            ("is_int_type", "true"),
            ("fragment", "fragment"),
            ("shadert_enum_val", "UsingShader::Fragment"),
        ]
    );
}

#[test]
fn template_data_of_the_float_format() {
    let k = key(TexelFormat::R32Sfloat, UsingShader::Compute, false, Algo::Smart);
    assert_eq!(
        template_data(k),
        vec![
            ("output_format", "r32f"),
            ("swizzle_vec", "r"),
            ("processing_t", "float"),
            ("output_t", "vec4"),
            ("compute", "compute"),
            ("shadert_enum_val", "UsingShader::Compute"),
        ]
    );
}

#[test]
fn the_clamp_is_the_largest_sample_of_the_format() {
    for k in variant_table() {
        let max_val = template_data(k).into_iter().find(|(name, _)| *name == "max_val");
        let expected = match k.format {
            TexelFormat::R8Uint | TexelFormat::R8G8B8A8Uint => Some(u8::MAX as u32),
            TexelFormat::R16Uint | TexelFormat::R16G16B16A16Uint => Some(u16::MAX as u32),
            _ => None,
        };
        assert_eq!(max_val.map(|(_, v)| v.parse::<u32>().unwrap()), expected);
    }
}

const TEMPLATE: &str = "layout({{output_format}}) {{processing_t}} {{output_t}} .{{swizzle_vec}} \
{{#if compute}}C{{/if}}{{#if fragment}}F{{/if}} {{#if is_int_type}}min(v, {{max_val}}){{else}}v{{/if}} \
{{#if is_hsv}}hsv{{else}}rgb{{/if}}";

#[test]
fn render_kernel_fills_the_template() {
    assert_eq!(
        render_kernel(
            TEMPLATE,
            key(TexelFormat::R8G8B8A8Uint, UsingShader::Compute, true, Algo::Smart)
        ),
        Ok("layout(rgba8ui) vec4 uvec4 .rgba C min(v, 255) hsv".to_string())
    );
    assert_eq!(
        render_kernel(TEMPLATE, key(TexelFormat::R32Sfloat, UsingShader::Fragment, false, Algo::Smart)),
        Ok("layout(r32f) float vec4 .r F v rgb".to_string())
    );
    assert_eq!(
        render_kernel(TEMPLATE, key(TexelFormat::R16Uint, UsingShader::Fragment, false, Algo::Radial)),
        Ok("layout(r16ui) float uvec4 .r F min(v, 65535) rgb".to_string())
    );
}

#[test]
fn render_kernel_refuses_a_key_outside_the_table() {
    assert_eq!(
        render_kernel(TEMPLATE, key(TexelFormat::R8Uint, UsingShader::Compute, true, Algo::Smart)),
        Err(GenerateError::InvalidVariant)
    );
    assert_eq!(
        render_kernel(TEMPLATE, key(TexelFormat::R32Sfloat, UsingShader::Fragment, true, Algo::Radial)),
        Err(GenerateError::InvalidVariant)
    );
}

#[test]
fn template_data_of_the_float_vector_format() {
    let k = key(TexelFormat::R32G32B32A32Sfloat, UsingShader::Fragment, true, Algo::Smart);
    assert_eq!(
        template_data(k),
        vec![
            ("output_format", "rgba32f"),
            ("swizzle_vec", "rgba"),
            ("processing_t", "vec4"),
            ("output_t", "vec4"),
            ("is_vector_type", "true"),
            ("fragment", "fragment"),
            ("shadert_enum_val", "UsingShader::Fragment"),
            ("is_hsv", "_hsv"),
        ]
    );
}

#[test]
fn kernel_source_passes_the_text_on() {
    assert_eq!(kernel_source(Some("void main() {}".to_string())), Ok("void main() {}".to_string()));
    assert_eq!(kernel_source(Some(String::new())), Ok(String::new()));
    assert_eq!(kernel_source(None), Err(GenerateError::Template));
}

#[test]
fn render_kernel_reports_a_broken_template() {
    assert_eq!(
        render_kernel(
            "{{#if compute}}never closed",
            key(TexelFormat::R8Uint, UsingShader::Compute, false, Algo::Smart)
        ),
        Err(GenerateError::Template)
    );
}

#[test]
fn generate_shaders_renders_every_variant() {
    let sources = generate_shaders("S {{output_format}}{{is_hsv}}", "R {{output_format}}{{is_hsv}}")
        .unwrap();
    let table = variant_table();
    assert_eq!(sources.kernels.len(), table.len());
    for (file, k) in sources.kernels.iter().zip(table.iter()) {
        assert_eq!(file.name, kernel_name(*k));
        let tag = match k.algorithm {
            Algo::Smart => "S",
            Algo::Radial => "R",
        };
        let layout = match k.format {
            TexelFormat::R8Uint => "r8ui",
            TexelFormat::R16Uint => "r16ui",
            TexelFormat::R8G8B8A8Uint => "rgba8ui",
            TexelFormat::R16G16B16A16Uint => "rgba16ui",
            TexelFormat::R32Sfloat => "r32f",
            TexelFormat::R32G32B32A32Sfloat => "rgba32f",
        };
        let suffix = if k.hsv { "_hsv" } else { "" };
        assert_eq!(file.contents, format!("{} {}{}", tag, layout, suffix));
    }
    assert_eq!(sources.dispatch, dispatch_source(&table));
    assert_eq!(sources.kernels[0].name, "denoise_shader_compute_r8uismart");
    assert_eq!(sources.kernels[0].contents, "S r8ui");
    assert_eq!(sources.kernels[35].name, "denoise_shader_fragment_rgba32fradial_hsv");
    assert_eq!(sources.kernels[35].contents, "R rgba32f_hsv");
}

#[test]
fn generate_shaders_stops_at_a_broken_template() {
    assert_eq!(generate_shaders("{{#each}}", "fine"), Err(GenerateError::Template));
    assert_eq!(generate_shaders("fine", "{{/if}}"), Err(GenerateError::Template));
}

#[test]
fn assemble_names_the_texts_in_table_order() {
    let table = variant_table();
    let texts: Vec<String> = (0..table.len()).map(|i| format!("kernel {}", i)).collect();
    let sources = assemble(texts.clone()).unwrap();
    assert_eq!(sources.kernels.len(), 36);
    for i in 0..table.len() {
        assert_eq!(sources.kernels[i].name, kernel_name(table[i]));
        assert_eq!(sources.kernels[i].contents, texts[i]);
    }
    assert_eq!(sources.dispatch, dispatch_source(&table));
}

#[test]
fn assemble_refuses_any_other_number_of_texts() {
    assert_eq!(assemble(vec![]), Err(GenerateError::Incomplete));
    assert_eq!(assemble(vec!["one".to_string(); 35]), Err(GenerateError::Incomplete));
    assert_eq!(assemble(vec!["one".to_string(); 37]), Err(GenerateError::Incomplete));
}
