//! The host side of one denoise call: what is decided before any device
//! work starts, and the order of the three device jobs.

use vstd::prelude::*;
use crate::channels::{device_layout_spec, host_layout_spec};
use crate::error::DenoiseError;
use crate::format::{descriptor_of, device_channels, FormatDescriptor, TypeToFormat};
use crate::params::{DenoiseParams, ShaderParams};
use crate::selector::{is_kernel_for, select, KernelId};
use crate::variant::{is_registered, Algo, UsingShader, VariantKey};

verus! {

/// Edge length of the square tile that one compute work group covers.
pub const TILE: u32 = 8;

/// Vertices of the two triangles that make up the full-screen quad.
pub const QUAD_VERTICES: u32 = 6;

/// The work that one kernel execution submits.
#[derive(Debug, Clone, Copy, PartialEq, Eq, Structural)]
pub enum Workload {
    /// A compute dispatch of this many work groups along each axis, with the
    /// output image bound at `output_binding`.
    Dispatch { groups_x: u32, groups_y: u32, groups_z: u32, output_binding: u32 },
    /// One draw of a full-screen quad into the output image.
    FullscreenQuad { vertices: u32 },
}

/// Everything that is decided about one call before any device work starts.
#[derive(Debug, Clone, Copy, PartialEq, Eq, Structural)]
pub struct DenoisePlan {
    /// Channels per pixel of the host buffer.
    pub input_channels: usize,
    /// The formats of the input and output image.
    pub formats: FormatDescriptor,
    /// The kernel to execute.
    pub kernel: KernelId,
    /// How it is executed.
    pub workload: Workload,
    /// Samples that cross to the device, and come back from it.
    pub device_len: usize,
    /// The kernel's parameter block.
    pub constants: ShaderParams,
}

/// The channel count of a buffer of `len` samples that holds an image of
/// `width` by `height` pixels, if it has one that is supported.
pub open spec fn shape_channels(len: int, width: int, height: int) -> Option<int> {
    let pixels = width * height;
    if pixels <= 0 {
        None
    } else if len == pixels {
        Some(1)
    } else if len == 3 * pixels {
        Some(3)
    } else if len == 4 * pixels {
        Some(4)
    } else {
        None
    }
}

/// The number of tiles needed to cover `extent` pixels.
pub open spec fn tiles(extent: int) -> int {
    (extent + TILE - 1) / (TILE as int)
}

/// The binding of the output image in a compute kernel.
pub open spec fn output_binding_of(algorithm: Algo) -> u32 {
    match algorithm {
        Algo::Smart => 1,
        Algo::Radial => 2,
    }
}

/// The work submitted for an image of `width` by `height` pixels.
pub open spec fn workload_of(stage: UsingShader, algorithm: Algo, width: u32, height: u32)
    -> Workload {
    match stage {
        UsingShader::Compute => Workload::Dispatch {
            groups_x: tiles(width as int) as u32,
            groups_y: tiles(height as int) as u32,
            groups_z: 1,
            output_binding: output_binding_of(algorithm),
        },
        UsingShader::Fragment => Workload::FullscreenQuad { vertices: QUAD_VERTICES },
    }
}

/// The key of the kernel that a call needs.
pub open spec fn kernel_key<D: TypeToFormat>(
    channels: int,
    stage: UsingShader,
    hsv: bool,
    algorithm: Algo,
) -> VariantKey {
    VariantKey {
        format: descriptor_of(D::element_type(), channels).storage_format,
        stage,
        hsv,
        algorithm,
    }
}

/// Why no plan can be made for a call, if none can.
pub open spec fn plan_failure<D: TypeToFormat>(
    len: int,
    width: int,
    height: int,
    stage: UsingShader,
    hsv: bool,
    algorithm: Algo,
) -> Option<DenoiseError> {
    match shape_channels(len, width, height) {
        None => Some(DenoiseError::UnsupportedInput),
        Some(channels) => if width * height * device_channels(channels) > usize::MAX {
            Some(DenoiseError::UnsupportedInput)
        } else if !is_registered(kernel_key::<D>(channels, stage, hsv, algorithm)) {
            Some(DenoiseError::UnsupportedVariant)
        } else {
            None
        },
    }
}

/// Whether `plan` is the plan of the call with these arguments.
pub open spec fn is_plan_of<D: TypeToFormat>(
    plan: DenoisePlan,
    len: int,
    width: u32,
    height: u32,
    stage: UsingShader,
    params: DenoiseParams,
    hsv: bool,
    algorithm: Algo,
) -> bool {
    &&& shape_channels(len, width as int, height as int) == Some(plan.input_channels as int)
    &&& plan.formats == descriptor_of(D::element_type(), plan.input_channels as int)
    &&& is_kernel_for(
        plan.kernel,
        kernel_key::<D>(plan.input_channels as int, stage, hsv, algorithm),
    )
    &&& plan.workload == workload_of(stage, algorithm, width, height)
    &&& plan.device_len == width * height * plan.formats.output_channels
    &&& plan.constants == (ShaderParams {
        width,
        height,
        sigma: params.sigma,
        k_sigma: params.k_sigma,
        threshold: params.threshold,
    })
}

/// The channel count of a buffer of `len` samples that holds an image of
/// `img_w` by `img_h` pixels. An empty image, or a length that is not one,
/// three or four samples per pixel, is refused.
pub fn channel_count(len: usize, img_w: u32, img_h: u32) -> (r: Result<usize, DenoiseError>)
    ensures
        match r {
            Ok(channels) => shape_channels(len as int, img_w as int, img_h as int) == Some(
                channels as int,
            ),
            Err(e) => e == DenoiseError::UnsupportedInput && shape_channels(
                len as int,
                img_w as int,
                img_h as int,
            ) is None,
        },
{
    assert((img_w as int) * (img_h as int) <= 0xFFFF_FFFF * 0xFFFF_FFFF) by (nonlinear_arith)
        requires
            0 <= img_w <= 0xFFFF_FFFF,
            0 <= img_h <= 0xFFFF_FFFF,
    ;
    assert(0 <= (img_w as int) * (img_h as int)) by (nonlinear_arith)
        requires
            0 <= img_w,
            0 <= img_h,
    ;
    let pixels: u64 = (img_w as u64) * (img_h as u64);
    let samples: u64 = len as u64;
    if pixels == 0 {
        Err(DenoiseError::UnsupportedInput)
    } else if samples == pixels {
        Ok(1)
    } else if samples % 3 == 0 && samples / 3 == pixels {
        Ok(3)
    } else if samples % 4 == 0 && samples / 4 == pixels {
        Ok(4)
    } else {
        Err(DenoiseError::UnsupportedInput)
    }
}

/// The number of tiles needed to cover `extent` pixels.
pub fn tile_count(extent: u32) -> (n: u32)
    ensures
        n == tiles(extent as int),
        n * TILE >= extent,
        extent > 0 ==> (n - 1) * TILE < extent,
{
    if extent % TILE == 0 {
        extent / TILE
    } else {
        extent / TILE + 1
    }
}

/// The work submitted for an image of `img_w` by `img_h` pixels: for the
/// compute stage a grid of tiles that covers the image, for the fragment
/// stage one full-screen quad.
pub fn workload(shader_type: UsingShader, algorithm: Algo, img_w: u32, img_h: u32) -> (w: Workload)
    ensures
        w == workload_of(shader_type, algorithm, img_w, img_h),
{
    match shader_type {
        UsingShader::Compute => Workload::Dispatch {
            groups_x: tile_count(img_w),
            groups_y: tile_count(img_h),
            groups_z: 1,
            output_binding: match algorithm {
                Algo::Smart => 1,
                Algo::Radial => 2,
            },
        },
        UsingShader::Fragment => Workload::FullscreenQuad { vertices: QUAD_VERTICES },
    }
}

/// Decides everything about one call: the buffer's channel count, the
/// formats of the two images, the kernel, the work to submit, the number of
/// samples that cross to the device, and the kernel's parameter block.
///
/// A buffer whose length is not one, three or four samples per pixel of a
/// non-empty image is unsupported input, and so is one whose device layout
/// would not fit in memory; a tuple without a kernel is an unsupported
/// variant. The parameters are passed on as they are.
pub fn plan_denoise<D: TypeToFormat>(
    len: usize,
    img_w: u32,
    img_h: u32,
    shader_type: UsingShader,
    params: DenoiseParams,
    use_hsv: bool,
    algorithm: Algo,
) -> (r: Result<DenoisePlan, DenoiseError>)
    ensures
        match r {
            Ok(plan) => {
                &&& plan_failure::<D>(
                    len as int,
                    img_w as int,
                    img_h as int,
                    shader_type,
                    use_hsv,
                    algorithm,
                ) is None
                &&& is_plan_of::<D>(
                    plan,
                    len as int,
                    img_w,
                    img_h,
                    shader_type,
                    params,
                    use_hsv,
                    algorithm,
                )
            },
            Err(e) => plan_failure::<D>(
                len as int,
                img_w as int,
                img_h as int,
                shader_type,
                use_hsv,
                algorithm,
            ) == Some(e),
        },
{
    let input_channels = match channel_count(len, img_w, img_h) {
        Ok(channels) => channels,
        Err(e) => {
            return Err(e);
        },
    };
    let ghost pixels = (img_w as int) * (img_h as int);
    assert(len == pixels * input_channels);
    assert(pixels * device_channels(input_channels as int) == (if input_channels == 3 {
        len + len / 3
    } else {
        len as int
    }));
    let device_len: usize = if input_channels == 3 {
        if len / 3 > usize::MAX - len {
            return Err(DenoiseError::UnsupportedInput);
        }
        len + len / 3
    } else {
        len
    };
    let output_channels: usize = if input_channels == 3 {
        4
    } else {
        input_channels
    };
    let formats = FormatDescriptor {
        sampled_format: D::type2sampled_format(input_channels),
        storage_format: D::type2result_format(output_channels),
        output_channels,
    };
    assert(formats == descriptor_of(D::element_type(), input_channels as int));
    let kernel = match select(formats.storage_format, shader_type, use_hsv, algorithm) {
        Ok(kernel) => kernel,
        Err(e) => {
            return Err(e);
        },
    };
    Ok(
        DenoisePlan {
            input_channels,
            formats,
            kernel,
            workload: workload(shader_type, algorithm, img_w, img_h),
            device_len,
            constants: ShaderParams::new(img_w, img_h, params),
        },
    )
}

/// The device layout of a buffer that a plan was made for has the plan's length.
pub proof fn lemma_device_layout_len<T>(
    samples: Seq<T>,
    alpha: T,
    width: int,
    height: int,
    channels: int,
)
    requires
        shape_channels(samples.len() as int, width, height) == Some(channels),
    ensures
        device_layout_spec(samples, channels, alpha).len() == width * height * device_channels(
            channels,
        ),
{
}

/// The result has the shape of the input: whatever samples come back from
/// the device, as many as the plan says, the host layout of them is as long
/// as the buffer that the plan was made for.
pub proof fn lemma_result_has_input_shape<T>(device: Seq<T>, len: int, width: int, height: int)
    requires
        shape_channels(len, width, height) is Some,
        device.len() == width * height * device_channels(
            shape_channels(len, width, height).unwrap(),
        ),
    ensures
        host_layout_spec(device, shape_channels(len, width, height).unwrap()).len() == len,
{
}

/// Where a call stands between its three device jobs.
#[derive(Debug, Clone, Copy, PartialEq, Eq, Structural)]
pub enum Phase {
    /// Planned; nothing submitted yet.
    Ready,
    /// The upload of the input image is in flight.
    Uploading,
    /// The kernel is in flight.
    Executing,
    /// The download of the output image is in flight.
    Downloading,
    /// The result was handed back.
    Done,
    /// The call was given up.
    Failed,
}

/// What the device layer reports to the call.
#[derive(Debug, Clone, Copy, PartialEq, Eq, Structural)]
pub enum JobEvent {
    /// The caller asks for the call to start.
    Begin,
    /// The job in flight has signalled its completion.
    Completed,
    /// The job in flight could not be created, submitted or awaited.
    DeviceError,
}

/// What the device layer is to do next.
#[derive(Debug, Clone, Copy, PartialEq, Eq, Structural)]
pub enum Action {
    /// Create the input image and copy the device-layout samples into it.
    Upload,
    /// Create the output image and execute the kernel.
    Execute,
    /// Copy the output image into a host buffer.
    Download,
    /// Hand the host-layout samples back to the caller.
    Deliver,
    /// Release everything and report the error.
    Abort(DenoiseError),
    /// Nothing: the call is over.
    Idle,
}

/// The transition of a call: each job is submitted when the one before it
/// has completed, a device error gives the call up as a device failure, an
/// event out of turn gives it up as an argument error, and a call that is
/// over stays so.
pub open spec fn step_spec(phase: Phase, event: JobEvent) -> (Phase, Action) {
    match (phase, event) {
        (Phase::Done, _) => (Phase::Done, Action::Idle),
        (Phase::Failed, _) => (Phase::Failed, Action::Idle),
        (_, JobEvent::DeviceError) => (Phase::Failed, Action::Abort(DenoiseError::DeviceFailure)),
        (Phase::Ready, JobEvent::Begin) => (Phase::Uploading, Action::Upload),
        (Phase::Uploading, JobEvent::Completed) => (Phase::Executing, Action::Execute),
        (Phase::Executing, JobEvent::Completed) => (Phase::Downloading, Action::Download),
        (Phase::Downloading, JobEvent::Completed) => (Phase::Done, Action::Deliver),
        _ => (Phase::Failed, Action::Abort(DenoiseError::InvalidArgument)),
    }
}

/// Advances a call by one event.
pub fn step(phase: Phase, event: JobEvent) -> (next: (Phase, Action))
    ensures
        next == step_spec(phase, event),
{
    match phase {
        Phase::Done => (Phase::Done, Action::Idle),
        Phase::Failed => (Phase::Failed, Action::Idle),
        _ => match event {
            JobEvent::DeviceError => (Phase::Failed, Action::Abort(DenoiseError::DeviceFailure)),
            JobEvent::Begin => match phase {
                Phase::Ready => (Phase::Uploading, Action::Upload),
                _ => (Phase::Failed, Action::Abort(DenoiseError::InvalidArgument)),
            },
            JobEvent::Completed => match phase {
                Phase::Uploading => (Phase::Executing, Action::Execute),
                Phase::Executing => (Phase::Downloading, Action::Download),
                Phase::Downloading => (Phase::Done, Action::Deliver),
                _ => (Phase::Failed, Action::Abort(DenoiseError::InvalidArgument)),
            },
        },
    }
}

/// The phase a call is in after a sequence of events, starting from `Ready`.
pub open spec fn phase_after(events: Seq<JobEvent>) -> Phase
    decreases events.len(),
{
    if events.len() == 0 {
        Phase::Ready
    } else {
        step_spec(phase_after(events.drop_last()), events.last()).0
    }
}

/// The job order: a call hands its result back only after it was begun and
/// its upload, its kernel and its download have completed, in this order and
/// with nothing in between.
pub proof fn lemma_job_order(events: Seq<JobEvent>)
    ensures
        phase_after(events) == Phase::Done <==> {
            &&& events.len() >= 4
            &&& events[0] == JobEvent::Begin
            &&& events[1] == JobEvent::Completed
            &&& events[2] == JobEvent::Completed
            &&& events[3] == JobEvent::Completed
        },
        phase_after(events) == Phase::Ready <==> events.len() == 0,
        phase_after(events) == Phase::Uploading <==> events.len() == 1 && events[0]
            == JobEvent::Begin,
        phase_after(events) == Phase::Executing <==> {
            &&& events.len() == 2
            &&& events[0] == JobEvent::Begin
            &&& events[1] == JobEvent::Completed
        },
        phase_after(events) == Phase::Downloading <==> {
            &&& events.len() == 3
            &&& events[0] == JobEvent::Begin
            &&& events[1] == JobEvent::Completed
            &&& events[2] == JobEvent::Completed
        },
    decreases events.len(),
{
    if events.len() > 0 {
        let front = events.drop_last();
        lemma_job_order(front);
        assert(forall|i: int| 0 <= i < front.len() ==> front[i] == events[i]);
    }
}

} // verus!
