use smart_denoise::{
    generate_shaders, is_plain_template, nests_too_deep, render_kernel, uses_partials, Algo,
    GenerateError, TexelFormat, UsingShader, VariantKey,
};

fn key() -> VariantKey {
    VariantKey {
        format: TexelFormat::R8G8B8A8Uint,
        stage: UsingShader::Compute,
        hsv: true,
        algorithm: Algo::Smart,
    }
}

fn nested(helper: &str, depth: usize) -> String {
    let mut t = String::new();
    for _ in 0..depth {
        t.push_str(&format!("{{{{#{} compute}}}}", helper));
    }
    t.push('x');
    for _ in 0..depth {
        t.push_str(&format!("{{{{/{}}}}}", helper));
    }
    t
}

const SELF_CALLING: &str = "{{#*inline \"a\"}}{{> a}}{{/inline}}{{> a}}";

#[test]
fn plain_text_and_expressions_hold_no_partial() {
    for template in [
        "",
        "{",
        "{{",
        "void main() { x = a > b ? a * 2 : b; }",
        "{{output_format}} > {{max_val}} * 2",
        "{{#if compute}}a{{else}}b{{/if}}",
        "{{~#if compute~}} a {{~/if~}}",
        "{{{output_format}}}",
        "{{! a comment }}",
        "{ {> a}}",
        "{{a}}>",
        "{{a >}}",
        "{{a}}{*}",
    ] {
        assert!(!uses_partials(template), "{}", template);
    }
}

#[test]
fn partials_and_decorators_are_found() {
    for template in [
        "{{> a}}",
        "{{>a}}",
        "{{ > a}}",
        "{{~> a}}",
        "{{~ > a}}",
        "{{#> a}}b{{/a}}",
        "{{# > a}}b{{/a}}",
        "{{~#> a}}b{{/a}}",
        "{{* a}}",
        "{{*inline \"a\"}}",
        "{{#*inline \"a\"}}b{{/inline}}",
        "{{ \t\r\n#*inline \"a\"}}b{{/inline}}",
        "text before {{> a}} and after",
        "{{{> a}}}",
        "{{a}}{{> b}}",
        "{{>",
        "{{*",
        SELF_CALLING,
    ] {
        assert!(uses_partials(template), "{}", template);
        assert!(!is_plain_template(template), "{}", template);
    }
}

#[test]
fn simple_tags_are_not_too_deep() {
    for template in [
        "",
        "{{output_format}}",
        "f(a[0], \"s\", 'c') {{output_format}} g(b[1])",
        "{{#if compute}}f(x){{else}}g[y]{{/if}}",
        "{{a}} ( {{b}} [ {{c}} \" {{d}} ' {{e}} | @ . 1.5",
        "{{a b=1 c=true}}",
        "{{a b=1.5}}",
        "{{this.compute}}",
        "{{./compute}}",
        "{{@index}}{{@key}}{{@first}}{{@last}}",
        "{{! a comment. With a dot, and an @ }}",
        "..{{a}}..",
        "@{{r}}",
        "}} ( {{a}}",
    ] {
        assert!(!nests_too_deep(template), "{}", template);
        assert!(is_plain_template(template), "{}", template);
    }
}

#[test]
fn compound_tags_are_found() {
    for template in [
        "{{#if (eq a b)}}x{{/if}}",
        "{{lookup this \"compute\"}}",
        "{{lookup this 'compute'}}",
        "{{a.[0]}}",
        "{{#if [1]}}x{{/if}}",
        "{{#each @root}}x{{/each}}",
        "{{#each @root.compute}}x{{/each}}",
        "{{#each ..}}x{{/each}}",
        "{{#each ../compute}}x{{/each}}",
        "{{@../index}}",
        "{{#each this as |v k|}}x{{/each}}",
        "{{#with this as |root|}}x{{/with}}",
        "{{(",
        "{{ a ( }}",
        "{{a} (",
    ] {
        assert!(nests_too_deep(template), "{}", template);
        assert!(!is_plain_template(template), "{}", template);
    }
}

#[test]
fn at_most_64_blocks_may_be_opened() {
    assert!(!nests_too_deep(&nested("if", 64)));
    assert!(nests_too_deep(&nested("if", 65)));
    assert!(!nests_too_deep(&"{{#if compute}}x{{/if}}".repeat(64)));
    assert!(nests_too_deep(&"{{#if compute}}x{{/if}}".repeat(65)));
    assert!(!nests_too_deep(&"{{compute}}".repeat(1000)));
    assert!(!nests_too_deep(&"#".repeat(1000)));
}

#[test]
fn a_template_that_calls_itself_is_refused() {
    assert_eq!(render_kernel(SELF_CALLING, key()), Err(GenerateError::NotPlain));
    assert_eq!(generate_shaders(SELF_CALLING, "fine"), Err(GenerateError::NotPlain));
    assert_eq!(generate_shaders("fine", SELF_CALLING), Err(GenerateError::NotPlain));
}

#[test]
fn a_template_that_is_not_plain_is_refused_before_anything_is_rendered() {
    assert_eq!(generate_shaders("{{#if}}", "{{> Smart}}"), Err(GenerateError::NotPlain));
    assert_eq!(generate_shaders("{{> Radial}}", "{{#if}}"), Err(GenerateError::NotPlain));
    assert_eq!(generate_shaders("{{#if}}", "fine"), Err(GenerateError::Template));
    assert_eq!(generate_shaders("fine", "{{#if}}"), Err(GenerateError::Template));
}

#[test]
fn paths_inside_the_current_context_render() {
    assert_eq!(render_kernel("{{this.output_format}}", key()), Ok("rgba8ui".to_string()));
    assert_eq!(render_kernel("{{./max_val}}", key()), Ok("255".to_string()));
    assert_eq!(
        render_kernel("{{#each this}}{{@key}} {{/each}}", key()),
        Ok("compute is_hsv is_int_type is_vector_type max_val output_format output_t \
            processing_t shadert_enum_val swizzle_vec "
            .to_string())
    );
}

#[test]
fn a_template_with_a_partial_is_refused() {
    assert_eq!(render_kernel("{{> Smart}}", key()), Err(GenerateError::NotPlain));
    assert_eq!(render_kernel("{{#> Smart}}x{{/Smart}}", key()), Err(GenerateError::NotPlain));
    assert_eq!(generate_shaders("fine", "{{> Smart}}"), Err(GenerateError::NotPlain));
}

#[test]
fn a_template_with_a_sub_expression_is_refused() {
    assert_eq!(
        render_kernel("{{#if (lookup this \"compute\")}}x{{/if}}", key()),
        Err(GenerateError::NotPlain)
    );
    let mut deep = String::from("{{#if ");
    deep.push_str(&"(lookup this ".repeat(400));
    deep.push_str("compute");
    deep.push_str(&")".repeat(400));
    deep.push_str("}}x{{/if}}");
    assert_eq!(render_kernel(&deep, key()), Err(GenerateError::NotPlain));
}

#[test]
fn the_deepest_plain_nesting_renders() {
    for (open, close) in [
        ("{{#if compute}}", "{{/if}}"),
        ("{{#with this}}", "{{/with}}"),
        ("{{#unless missing}}", "{{/unless}}"),
        ("{{#if missing}}{{else}}", "{{/if}}"),
    ] {
        let template = format!("{}x{}", open.repeat(64), close.repeat(64));
        assert!(is_plain_template(&template), "{}", open);
        assert_eq!(render_kernel(&template, key()), Ok("x".to_string()), "{}", open);
    }
}

#[test]
fn walking_the_data_inside_a_walk_stays_small() {
    let template = format!("{}x{}", "{{#each this}}".repeat(64), "{{/each}}".repeat(64));
    assert!(is_plain_template(&template));
    assert_eq!(render_kernel(&template, key()), Ok(String::new()));
    let flat = "{{#each this}}{{this}};{{/each}}";
    assert_eq!(
        render_kernel(flat, key()),
        Ok("compute;_hsv;true;true;255;rgba8ui;uvec4;vec4;UsingShader::Compute;rgba;".to_string())
    );
}

#[test]
fn deeper_nesting_is_refused() {
    for helper in ["if", "with", "each", "unless"] {
        for depth in [65usize, 300, 1000, 20000] {
            assert_eq!(
                render_kernel(&nested(helper, depth), key()),
                Err(GenerateError::NotPlain)
            );
        }
    }
}

fn is_answered(template: &str) {
    match render_kernel(template, key()) {
        Ok(_) | Err(GenerateError::Template) | Err(GenerateError::NotPlain) => {}
        Err(e) => panic!("{:?} on {:?}", e, template),
    }
}

#[test]
fn odd_templates_are_answered() {
    for template in [
        "",
        "{{",
        "}}",
        "{{}}",
        "{{~}}",
        "{{#if}}",
        "{{/if}}",
        "{{else}}",
        "{{^}}",
        "{{#if compute}}{{else}}{{else}}{{/if}}",
        "{{#if compute}}{{/with}}",
        "{{#if compute}}",
        "{{{{raw}}}}x{{{{/raw}}}}",
        "{{{{raw}}}}",
        "{{!",
        "{{! never closed",
        "{{!-- --}}",
        "{{!-- never closed",
        "\\{{compute}}",
        "\\\\{{compute}}",
        "{{&compute}}",
        "{{{compute}}}",
        "{{{compute}}",
        "{{ # if compute}}x{{ / if}}",
        "{{~#if compute~}} x {{~/if~}}",
        "\u{e9}{{compute}}\u{fc}\u{4e2d}",
        "{{\u{e9}}}",
        "{{~\u{4e2d}~}}",
        "{{compute}}\n\n{{#if compute}}\n  x\n{{/if}}\n",
        "{{#if compute}}\r\n{{/if}}\r\n",
        "{{a b=1 c=true d=null e=-2}}",
        "{{lookup this compute}}",
        "{{log compute}}",
        "{{len compute}}",
        "{{#each compute}}x{{else}}y{{/each}}",
        "{{#with missing}}x{{else}}y{{/with}}",
        "{{#unless compute}}x{{else}}y{{/unless}}",
        "{{#raw}}{{x}}{{/raw}}",
        "{{if}}",
        "{{#missing}}x{{/missing}}",
        "{{missing compute}}",
        "{{eq compute compute}}",
    ] {
        is_answered(template);
    }
}

#[test]
fn every_short_template_is_answered() {
    let alphabet = ['{', '}', '#', '/', 'a', ' ', '~', '!', '^', '&', '='];
    let mut templates = vec![String::new()];
    for _ in 0..5 {
        let mut longer = Vec::with_capacity(templates.len() * alphabet.len());
        for t in &templates {
            if t.len() == templates.last().unwrap().len() {
                for c in alphabet {
                    let mut s = t.clone();
                    s.push(c);
                    longer.push(s);
                }
            }
        }
        for t in &longer {
            is_answered(t);
        }
        templates = longer;
    }
}
