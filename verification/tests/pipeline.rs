use smart_denoise::{
    channel_count, from_device_layout, pad_alpha, plan_denoise, resolve, step, strip_alpha,
    tile_count, to_device_layout, workload, Action, Algo, DenoiseError, DenoiseParams,
    ElementType, FloatBits, JobEvent, KernelId, Phase, ShaderParams, TexelFormat, UsingShader,
    Workload,
};

#[test]
fn pad_alpha_inserts_after_every_third_sample() {
    assert_eq!(pad_alpha(&[1u8, 2, 3, 4, 5, 6], 0), vec![1, 2, 3, 0, 4, 5, 6, 0]);
    assert_eq!(pad_alpha(&[10u16, 20, 30], 7), vec![10, 20, 30, 7]);
    assert_eq!(pad_alpha::<u8>(&[], 0), Vec::<u8>::new());
}

#[test]
fn pad_alpha_keeps_an_incomplete_pixel_as_it_is() {
    assert_eq!(pad_alpha(&[1u8, 2, 3, 4], 9), vec![1, 2, 3, 9, 4]);
    assert_eq!(pad_alpha(&[1u8, 2], 9), vec![1, 2]);
}

#[test]
fn strip_alpha_drops_every_fourth_sample() {
    assert_eq!(strip_alpha(&[1u8, 2, 3, 255, 4, 5, 6, 255]), vec![1, 2, 3, 4, 5, 6]);
    assert_eq!(strip_alpha(&[1u8, 2, 3]), vec![1, 2, 3]);
    assert_eq!(strip_alpha::<u16>(&[]), Vec::<u16>::new());
}

#[test]
fn padding_and_stripping_is_the_identity() {
    for len in 0..40usize {
        let samples: Vec<u16> = (0..len).map(|i| (i * 37 + 5) as u16).collect();
        let padded = pad_alpha(&samples, 0);
        assert_eq!(padded.len(), len + len / 3);
        assert_eq!(strip_alpha(&padded), samples);
    }
}

#[test]
fn padding_works_on_float_samples_too() {
    let samples = [0.5f32, 0.25, 1.0, 2.0, 4.0, 8.0];
    let padded = pad_alpha(&samples, 0.0);
    assert_eq!(padded, vec![0.5, 0.25, 1.0, 0.0, 2.0, 4.0, 8.0, 0.0]);
    assert_eq!(strip_alpha(&padded), samples.to_vec());
}

#[test]
fn device_layout_only_changes_three_channel_buffers() {
    let samples = [1u8, 2, 3, 4, 5, 6, 7, 8, 9, 10, 11, 12];
    assert_eq!(to_device_layout(&samples, 1, 0), samples.to_vec());
    assert_eq!(to_device_layout(&samples, 4, 0), samples.to_vec());
    assert_eq!(
        to_device_layout(&samples, 3, 0),
        vec![1, 2, 3, 0, 4, 5, 6, 0, 7, 8, 9, 0, 10, 11, 12, 0]
    );
    assert_eq!(from_device_layout(&samples, 1), samples.to_vec());
    assert_eq!(from_device_layout(&samples, 4), samples.to_vec());
    assert_eq!(from_device_layout(&samples, 3), vec![1, 2, 3, 5, 6, 7, 9, 10, 11]);
    for channels in [1usize, 3, 4] {
        let device = to_device_layout(&samples, channels, 0);
        assert_eq!(from_device_layout(&device, channels), samples.to_vec());
    }
}

#[test]
fn channel_count_reads_the_shape() {
    assert_eq!(channel_count(16, 4, 4), Ok(1));
    assert_eq!(channel_count(48, 4, 4), Ok(3));
    assert_eq!(channel_count(64, 4, 4), Ok(4));
    assert_eq!(channel_count(6, 2, 1), Ok(3));
    assert_eq!(channel_count(1, 1, 1), Ok(1));
}

#[test]
fn channel_count_refuses_other_shapes() {
    assert_eq!(channel_count(32, 4, 4), Err(DenoiseError::UnsupportedInput));
    assert_eq!(channel_count(17, 4, 4), Err(DenoiseError::UnsupportedInput));
    assert_eq!(channel_count(0, 4, 4), Err(DenoiseError::UnsupportedInput));
    assert_eq!(channel_count(80, 4, 4), Err(DenoiseError::UnsupportedInput));
    assert_eq!(channel_count(0, 0, 0), Err(DenoiseError::UnsupportedInput));
    assert_eq!(channel_count(16, 0, 4), Err(DenoiseError::UnsupportedInput));
    assert_eq!(channel_count(16, 4, 0), Err(DenoiseError::UnsupportedInput));
}

#[test]
fn channel_count_does_not_overflow_on_huge_images() {
    assert_eq!(
        channel_count(usize::MAX, u32::MAX, u32::MAX),
        Err(DenoiseError::UnsupportedInput)
    );
    assert_eq!(channel_count(12, u32::MAX, u32::MAX), Err(DenoiseError::UnsupportedInput));
}

#[test]
fn tile_count_covers_the_extent() {
    assert_eq!(tile_count(0), 0);
    assert_eq!(tile_count(1), 1);
    assert_eq!(tile_count(4), 1);
    assert_eq!(tile_count(8), 1);
    assert_eq!(tile_count(9), 2);
    assert_eq!(tile_count(16), 2);
    assert_eq!(tile_count(1920), 240);
    assert_eq!(tile_count(1921), 241);
    assert_eq!(tile_count(u32::MAX), 536_870_912);
}

#[test]
fn workload_depends_on_the_stage() {
    assert_eq!(
        workload(UsingShader::Compute, Algo::Smart, 640, 481),
        Workload::Dispatch { groups_x: 80, groups_y: 61, groups_z: 1, output_binding: 1 }
    );
    assert_eq!(
        workload(UsingShader::Compute, Algo::Radial, 8, 8),
        Workload::Dispatch { groups_x: 1, groups_y: 1, groups_z: 1, output_binding: 2 }
    );
    assert_eq!(
        workload(UsingShader::Fragment, Algo::Smart, 640, 480),
        Workload::FullscreenQuad { vertices: 6 }
    );
}

#[test]
fn plan_of_a_small_grayscale_image_on_the_compute_stage() {
    let params = DenoiseParams::default();
    let plan =
        plan_denoise::<u8>(16, 4, 4, UsingShader::Compute, params, false, Algo::Smart).unwrap();
    assert_eq!(plan.input_channels, 1);
    assert_eq!(plan.formats, resolve(ElementType::U8, 1).unwrap());
    assert_eq!(plan.formats.sampled_format, TexelFormat::R32Sfloat);
    assert_eq!(plan.formats.storage_format, TexelFormat::R8Uint);
    assert_eq!(plan.kernel, KernelId(0));
    assert_eq!(
        plan.workload,
        Workload::Dispatch { groups_x: 1, groups_y: 1, groups_z: 1, output_binding: 1 }
    );
    assert_eq!(plan.device_len, 16);
    assert_eq!(plan.constants, ShaderParams::new(4, 4, params));
}

#[test]
fn plan_of_a_three_channel_image_pads_to_four() {
    let params = DenoiseParams::new(1, 2, 3);
    let plan =
        plan_denoise::<u16>(30, 5, 2, UsingShader::Fragment, params, true, Algo::Smart).unwrap();
    assert_eq!(plan.input_channels, 3);
    assert_eq!(plan.formats.output_channels, 4);
    assert_eq!(plan.formats.storage_format, TexelFormat::R16G16B16A16Uint);
    assert_eq!(plan.formats.sampled_format, TexelFormat::R32G32B32A32Sfloat);
    assert_eq!(plan.kernel, KernelId(11));
    assert_eq!(plan.workload, Workload::FullscreenQuad { vertices: 6 });
    assert_eq!(plan.device_len, 40);
    assert_eq!(plan.constants.words(), [5, 2, 1, 2, 3]);
    let samples: Vec<u16> = (0..30).collect();
    assert_eq!(to_device_layout(&samples, plan.input_channels, 0).len(), plan.device_len);
}

#[test]
fn plan_refuses_a_buffer_of_the_wrong_shape() {
    let params = DenoiseParams::default();
    for len in [0usize, 15, 17, 32, 47, 65] {
        assert_eq!(
            plan_denoise::<u8>(len, 4, 4, UsingShader::Compute, params, false, Algo::Smart),
            Err(DenoiseError::UnsupportedInput)
        );
    }
    assert_eq!(
        plan_denoise::<u8>(0, 0, 4, UsingShader::Compute, params, false, Algo::Smart),
        Err(DenoiseError::UnsupportedInput)
    );
}

#[test]
fn plan_refuses_a_variant_without_a_kernel() {
    let params = DenoiseParams::default();
    assert_eq!(
        plan_denoise::<u8>(16, 4, 4, UsingShader::Compute, params, true, Algo::Smart),
        Err(DenoiseError::UnsupportedVariant)
    );
    assert_eq!(
        plan_denoise::<u16>(16, 4, 4, UsingShader::Fragment, params, true, Algo::Radial),
        Err(DenoiseError::UnsupportedVariant)
    );
    assert_eq!(
        plan_denoise::<FloatBits>(16, 4, 4, UsingShader::Fragment, params, true, Algo::Smart),
        Err(DenoiseError::UnsupportedVariant)
    );
}

#[test]
fn plan_of_a_float_image() {
    let params = DenoiseParams::default();
    let plan =
        plan_denoise::<FloatBits>(64, 4, 4, UsingShader::Fragment, params, true, Algo::Smart)
            .unwrap();
    assert_eq!(plan.input_channels, 4);
    assert_eq!(plan.formats, resolve(ElementType::F32, 4).unwrap());
    assert_eq!(plan.kernel, KernelId(17));
    assert_eq!(plan.device_len, 64);
    let plan =
        plan_denoise::<FloatBits>(16, 4, 4, UsingShader::Compute, params, false, Algo::Radial)
            .unwrap();
    assert_eq!(plan.input_channels, 1);
    assert_eq!(plan.formats.storage_format, TexelFormat::R32Sfloat);
    assert_eq!(plan.kernel, KernelId(30));
    assert_eq!(
        plan.workload,
        Workload::Dispatch { groups_x: 1, groups_y: 1, groups_z: 1, output_binding: 2 }
    );
}

#[test]
fn the_result_has_the_shape_of_the_input() {
    let params = DenoiseParams::default();
    for (width, height) in [(1u32, 1u32), (4, 4), (5, 3), (8, 2)] {
        for channels in [1usize, 3, 4] {
            let len = (width * height) as usize * channels;
            let plan = plan_denoise::<u8>(
                len,
                width,
                height,
                UsingShader::Compute,
                params,
                false,
                Algo::Smart,
            )
            .unwrap();
            let samples: Vec<u8> = (0..len).map(|i| i as u8).collect();
            let device = to_device_layout(&samples, plan.input_channels, 0);
            assert_eq!(device.len(), plan.device_len);
            assert_eq!(from_device_layout(&device, plan.input_channels), samples);
        }
    }
}

#[test]
fn a_call_runs_its_three_jobs_in_order() {
    let (p, a) = step(Phase::Ready, JobEvent::Begin);
    assert_eq!((p, a), (Phase::Uploading, Action::Upload));
    let (p, a) = step(p, JobEvent::Completed);
    assert_eq!((p, a), (Phase::Executing, Action::Execute));
    let (p, a) = step(p, JobEvent::Completed);
    assert_eq!((p, a), (Phase::Downloading, Action::Download));
    let (p, a) = step(p, JobEvent::Completed);
    assert_eq!((p, a), (Phase::Done, Action::Deliver));
    for event in [JobEvent::Begin, JobEvent::Completed, JobEvent::DeviceError] {
        assert_eq!(step(p, event), (Phase::Done, Action::Idle));
    }
}

#[test]
fn an_event_out_of_turn_gives_the_call_up() {
    let refusal = (Phase::Failed, Action::Abort(DenoiseError::InvalidArgument));
    for phase in [Phase::Uploading, Phase::Executing, Phase::Downloading] {
        assert_eq!(step(phase, JobEvent::Begin), refusal);
    }
    assert_eq!(step(Phase::Ready, JobEvent::Completed), refusal);
}

#[test]
fn a_device_error_gives_the_call_up() {
    let failure = (Phase::Failed, Action::Abort(DenoiseError::DeviceFailure));
    for phase in [Phase::Ready, Phase::Uploading, Phase::Executing, Phase::Downloading] {
        assert_eq!(step(phase, JobEvent::DeviceError), failure);
    }
    for event in [JobEvent::Begin, JobEvent::Completed, JobEvent::DeviceError] {
        assert_eq!(step(Phase::Failed, event), (Phase::Failed, Action::Idle));
    }
}
