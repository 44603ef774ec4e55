use queue_stopping::blit::{BindingKind, BlitPipeline, GpuCommand};
use queue_stopping::channel::{FrameSlot, TakeResult};
use queue_stopping::frame::{Frame, FramePayload, SourceEvent};
use queue_stopping::presentation::{LoopEvent, Phase, PresentationLoop, StepAction};
use queue_stopping::root_dir;
use queue_stopping::surface::{select_format, StartupError, SurfaceManager, TextureFormat};

fn image(handle: u64, pts_ms: u64) -> SourceEvent {
    SourceEvent::Data {
        frame: Frame {
            payload: FramePayload::Texture { handle },
            pts_ms,
        },
    }
}

fn expected_present(texture: u64) -> Vec<GpuCommand> {
    vec![
        GpuCommand::AcquireImage,
        GpuCommand::CreateBindGroup { texture },
        GpuCommand::BeginRenderPass {
            clear: true,
            store: true,
        },
        GpuCommand::SetPipeline,
        GpuCommand::SetBindGroup,
        GpuCommand::Draw {
            vertices: 3,
            instances: 1,
        },
        GpuCommand::EndRenderPass,
        GpuCommand::Submit,
        GpuCommand::Present,
    ]
}

#[test]
fn slot_overwrites_and_drains() {
    let mut slot = FrameSlot::new();
    assert_eq!(slot.try_take(), TakeResult::NoFrame);
    slot.put(image(1, 0));
    slot.put(image(2, 40));
    slot.put(image(3, 80));
    assert_eq!(
        slot.try_take(),
        TakeResult::Taken {
            texture: 3,
            pts_ms: 80
        }
    );
    assert_eq!(slot.try_take(), TakeResult::NoFrame);
}

#[test]
fn slot_ignores_end_of_stream() {
    let mut slot = FrameSlot::new();
    slot.put(SourceEvent::Eos);
    assert_eq!(slot.try_take(), TakeResult::NoFrame);
    assert_eq!(slot.try_take(), TakeResult::NoFrame);
}

#[test]
fn slot_flags_malformed_payload() {
    let mut slot = FrameSlot::new();
    slot.put(SourceEvent::Data {
        frame: Frame {
            payload: FramePayload::Malformed,
            pts_ms: 0,
        },
    });
    assert_eq!(slot.try_take(), TakeResult::FormatMismatch);
    assert_eq!(slot.try_take(), TakeResult::NoFrame);
}

#[test]
fn format_probe_finds_preferred() {
    let supported = vec![
        TextureFormat::Rgba8Unorm,
        TextureFormat::Bgra8UnormSrgb,
        TextureFormat::Bgra8Unorm,
    ];
    assert_eq!(select_format(&supported), Ok(TextureFormat::Bgra8UnormSrgb));
}

#[test]
fn format_probe_fails_fatally_without_preferred() {
    let supported = vec![TextureFormat::Rgba8Unorm, TextureFormat::Rgba8UnormSrgb];
    assert_eq!(
        select_format(&supported),
        Err(StartupError::NoSupportedFormat)
    );
    let none: Vec<TextureFormat> = vec![];
    assert_eq!(select_format(&none), Err(StartupError::NoSupportedFormat));
}

#[test]
fn surface_manager_keeps_fixed_choices_on_resize() {
    let mut m = SurfaceManager::new(TextureFormat::Bgra8UnormSrgb, 1280, 720);
    let before = m.config;
    m.configure(640, 480);
    assert_eq!(m.config.width, 640);
    assert_eq!(m.config.height, 480);
    assert_eq!(m.config.format, before.format);
    assert_eq!(m.config.present_mode, before.present_mode);
    assert!(m.config.render_attachment_usage);
}

#[test]
fn blit_pipeline_state_is_fixed() {
    let p = BlitPipeline::new(TextureFormat::Bgra8UnormSrgb);
    assert_eq!(p.target_format, TextureFormat::Bgra8UnormSrgb);
    assert_eq!(p.vertex_buffer_count, 0);
    assert!(p.triangle_list);
    assert!(p.blend_replace);
    assert_eq!(p.multisample_count, 1);
    assert!(p.sampler_linear);
    assert!(p.sampler_clamp);
    assert_eq!(p.layout.len(), 2);
    assert_eq!(p.layout[0].binding, 0);
    assert_eq!(p.layout[0].kind, BindingKind::SampledTexture);
    assert!(p.layout[0].fragment_visible);
    assert_eq!(p.layout[1].binding, 1);
    assert_eq!(p.layout[1].kind, BindingKind::FilteringSampler);
    assert!(p.layout[1].fragment_visible);
}

#[test]
fn one_blit_is_one_pass_one_binding_one_draw() {
    let p = BlitPipeline::new(TextureFormat::Bgra8UnormSrgb);
    let cmds = p.encode_present(42);
    assert_eq!(cmds, expected_present(42));
    let passes = cmds
        .iter()
        .filter(|c| matches!(c, GpuCommand::BeginRenderPass { .. }))
        .count();
    let bindings = cmds
        .iter()
        .filter(|c| matches!(c, GpuCommand::CreateBindGroup { .. }))
        .count();
    let draws = cmds
        .iter()
        .filter(|c| matches!(c, GpuCommand::Draw { .. }))
        .count();
    assert_eq!(passes, 1);
    assert_eq!(bindings, 1);
    assert_eq!(draws, 1);
    assert!(cmds.contains(&GpuCommand::Draw {
        vertices: 3,
        instances: 1
    }));
}

#[test]
fn presents_only_the_newest_frame() {
    let mut l = PresentationLoop::new(TextureFormat::Bgra8UnormSrgb, 1280, 720);
    l.channel.put(image(10, 0));
    l.channel.put(image(11, 40));
    l.channel.put(image(12, 80));
    let action = l.handle_event(LoopEvent::RedrawRequested);
    assert_eq!(
        action,
        StepAction::Present {
            commands: expected_present(12),
            width: 1280,
            height: 720,
        }
    );
    assert_eq!(l.last_presented, Some(12));
    // The superseded frames are gone: the next opportunity has nothing left.
    assert_eq!(
        l.handle_event(LoopEvent::RedrawRequested),
        StepAction::SkipNoFrame
    );
}

#[test]
fn no_frame_keeps_previous_image() {
    let mut l = PresentationLoop::new(TextureFormat::Bgra8UnormSrgb, 1280, 720);
    l.channel.put(image(5, 0));
    l.handle_event(LoopEvent::RedrawRequested);
    assert_eq!(l.last_presented, Some(5));
    for _ in 0..10 {
        let action = l.handle_event(LoopEvent::RedrawRequested);
        assert_eq!(action, StepAction::SkipNoFrame);
        assert_eq!(l.last_presented, Some(5));
        assert_eq!(l.phase, Phase::Running);
    }
}

#[test]
fn resize_is_processed_before_any_later_draw() {
    let mut l = PresentationLoop::new(TextureFormat::Bgra8UnormSrgb, 1280, 720);
    let action = l.handle_event(LoopEvent::Resized {
        width: 800,
        height: 600,
    });
    assert_eq!(
        action,
        StepAction::Reconfigure {
            width: 800,
            height: 600
        }
    );
    assert_eq!(l.surface.config.width, 800);
    assert_eq!(l.surface.config.height, 600);
    l.channel.put(image(6, 0));
    let action = l.handle_event(LoopEvent::RedrawRequested);
    assert_eq!(
        action,
        StepAction::Present {
            commands: expected_present(6),
            width: 800,
            height: 600,
        }
    );
}

#[test]
fn close_request_stops_draws_and_exits_once() {
    let mut l = PresentationLoop::new(TextureFormat::Bgra8UnormSrgb, 1280, 720);
    assert_eq!(
        l.handle_event(LoopEvent::CloseRequested),
        StepAction::Idle
    );
    assert_eq!(l.phase, Phase::ClosePending);
    // A frame may still arrive, but no further draw call occurs.
    l.channel.put(image(7, 0));
    assert_eq!(
        l.handle_event(LoopEvent::RedrawRequested),
        StepAction::Idle
    );
    assert_eq!(l.last_presented, None);
    // The end of the event drain reaches the terminal state, exactly once.
    assert_eq!(l.handle_event(LoopEvent::AboutToWait), StepAction::Exit);
    assert_eq!(l.phase, Phase::Exited);
    assert_eq!(l.handle_event(LoopEvent::AboutToWait), StepAction::Idle);
    assert_eq!(
        l.handle_event(LoopEvent::RedrawRequested),
        StepAction::Idle
    );
    assert_eq!(l.phase, Phase::Exited);
}

#[test]
fn scenario_resize_between_frames() {
    // Start with a 1280x720 surface; the producer emits F1; the loop
    // presents it.
    let mut l = PresentationLoop::new(TextureFormat::Bgra8UnormSrgb, 1280, 720);
    l.channel.put(image(1, 0));
    assert_eq!(
        l.handle_event(LoopEvent::RedrawRequested),
        StepAction::Present {
            commands: expected_present(1),
            width: 1280,
            height: 720,
        }
    );
    // The window resizes; the surface reconfigures before any further draw.
    l.handle_event(LoopEvent::Resized {
        width: 640,
        height: 480,
    });
    assert_eq!(l.surface.config.width, 640);
    assert_eq!(l.surface.config.height, 480);
    // No frames for ten iterations: each draw is skipped without error.
    for _ in 0..10 {
        assert_eq!(
            l.handle_event(LoopEvent::RedrawRequested),
            StepAction::SkipNoFrame
        );
        assert_eq!(l.phase, Phase::Running);
    }
    // F2 arrives and is presented onto the 640x480 surface; the full-screen
    // triangle needs no extra scaling logic.
    l.channel.put(image(2, 400));
    assert_eq!(
        l.handle_event(LoopEvent::RedrawRequested),
        StepAction::Present {
            commands: expected_present(2),
            width: 640,
            height: 480,
        }
    );
    assert_eq!(l.last_presented, Some(2));
}

#[test]
fn scenario_malformed_payload_is_logged_and_skipped() {
    let mut l = PresentationLoop::new(TextureFormat::Bgra8UnormSrgb, 1280, 720);
    l.channel.put(SourceEvent::Data {
        frame: Frame {
            payload: FramePayload::Malformed,
            pts_ms: 0,
        },
    });
    assert_eq!(
        l.handle_event(LoopEvent::RedrawRequested),
        StepAction::SkipFormatMismatch
    );
    // The loop continues polling without terminating.
    assert_eq!(l.phase, Phase::Running);
    assert_eq!(
        l.handle_event(LoopEvent::RedrawRequested),
        StepAction::SkipNoFrame
    );
    l.channel.put(image(8, 40));
    assert_eq!(
        l.handle_event(LoopEvent::RedrawRequested),
        StepAction::Present {
            commands: expected_present(8),
            width: 1280,
            height: 720,
        }
    );
}

#[test]
fn other_events_are_ignored() {
    let mut l = PresentationLoop::new(TextureFormat::Bgra8UnormSrgb, 1280, 720);
    assert_eq!(l.handle_event(LoopEvent::Other), StepAction::Idle);
    assert_eq!(l.phase, Phase::Running);
}

#[test]
fn root_dir_is_the_given_directory() {
    assert_eq!(root_dir("/srv/media"), "/srv/media".to_string());
}
