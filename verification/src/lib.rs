//! Edge-preserving image denoising on a GPU-class accelerator: the format
//! registry, the kernel variant table with its generator and selector, and
//! the host-side plan that carries a pixel buffer to the device and back.

pub mod args;
pub mod channels;
pub mod device;
pub mod error;
pub mod format;
pub mod generator;
pub mod names;
pub mod params;
pub mod pipeline;
pub mod samples;
pub mod selector;
pub mod template;
pub mod variant;

pub use args::{choose_params, parse_shader_type};
pub use channels::{from_device_layout, pad_alpha, strip_alpha, to_device_layout};
pub use device::{choose_device, DeviceCandidate, DeviceChoice, DeviceKind};
pub use error::DenoiseError;
pub use format::{resolve, ElementType, FloatBits, FormatDescriptor, TexelFormat, TypeToFormat};
pub use generator::{
    assemble, dispatch_source, generate_shaders, render_kernel, template_data, GenerateError,
    GeneratedSources, SourceFile,
};
pub use params::{DenoiseParams, ShaderParams};
pub use pipeline::{
    channel_count, plan_denoise, step, tile_count, workload, Action, DenoisePlan, JobEvent, Phase,
    Workload,
};
pub use samples::{bytes_per_sample, frame_len, samples_from_be_bytes, samples_to_be_bytes};
pub use selector::{select, KernelId};
pub use template::{is_plain_template, nests_too_deep, uses_partials};
pub use variant::{variant_table, Algo, UsingShader, VariantKey};
