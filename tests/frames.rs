use layered_render::background_camera::{
    BackgroundLutSource, BackgroundProcessedRenderTarget, BackgroundRenderTarget, RenderTargets,
};
use layered_render::frame::{mirror, run_frame, FrameOutput, RenderSnapshot, SimulationResources};
use layered_render::render_graph::{NodeOutcome, Severity, SkipReason};
use layered_render::surface::{Content, Extent, ImageHandle};

const RAW: ImageHandle = ImageHandle { id: 11 };
const PROCESSED: ImageHandle = ImageHandle { id: 12 };
const LUT: ImageHandle = ImageHandle { id: 13 };

fn world() -> SimulationResources {
    SimulationResources {
        raw_target: Some(BackgroundRenderTarget { handle: RAW }),
        processed_target: Some(BackgroundProcessedRenderTarget { handle: PROCESSED }),
        lut_sources: vec![BackgroundLutSource { lut_texture: LUT }],
    }
}

fn startup() -> RenderTargets {
    RenderTargets::initialize(Extent::new(1280, 800), RAW, PROCESSED)
}

#[test]
fn mirror_copies_handles_and_first_lut() {
    let s = mirror(&world());
    assert_eq!(
        s,
        RenderSnapshot { raw_target: Some(RAW), processed_target: Some(PROCESSED), lut_texture: Some(LUT) }
    );
    let empty = SimulationResources { raw_target: None, processed_target: None, lut_sources: vec![] };
    assert_eq!(
        mirror(&empty),
        RenderSnapshot { raw_target: None, processed_target: None, lut_texture: None }
    );
    let mut two = world();
    two.lut_sources.push(BackgroundLutSource { lut_texture: ImageHandle::new(99) });
    assert_eq!(mirror(&two).lut_texture, Some(LUT));
}

#[test]
fn startup_resize_grade_and_composite() {
    let mut t = startup();
    assert_eq!(t.raw.size, Extent::new(1280, 800));
    assert_eq!(t.processed.size, Extent::new(1280, 800));
    assert_eq!(t.processed.content, Content::Transparent);
    t.apply_resize_events(&vec![Extent::new(1920, 1080)]);
    assert_eq!(t.raw.size, Extent::new(1920, 1080));
    assert_eq!(t.processed.size, Extent::new(1920, 1080));
    let s = mirror(&world());
    let r = run_frame(&mut t, 1, &s, true, true, &vec![RAW, PROCESSED, LUT]);
    assert!(matches!(r.lut, Some(NodeOutcome::Draw(_))));
    assert!(matches!(r.composite, NodeOutcome::Draw(_)));
    assert_eq!(t.raw.content, Content::Scene { frame: 1 });
    assert_eq!(t.processed.content, Content::Graded { frame: 1 });
    assert_eq!(r.composited_background, Some(Content::Graded { frame: 1 }));
    assert_eq!(r.output, FrameOutput::MainOver { background: Content::Graded { frame: 1 } });
}

#[test]
fn never_ready_grading_leaves_main_output_unmodified() {
    let mut t = startup();
    let s = mirror(&world());
    let all = vec![RAW, PROCESSED, LUT];
    for frame in 0..5u64 {
        let r = run_frame(&mut t, frame, &s, false, true, &all);
        assert_eq!(
            r.lut,
            Some(NodeOutcome::Skip { reason: SkipReason::PipelineNotReady, severity: Severity::Silent })
        );
        assert!(matches!(r.composite, NodeOutcome::Draw(_)));
        assert_eq!(r.composited_background, Some(Content::Transparent));
        assert_eq!(r.output, FrameOutput::MainUnmodified);
        assert_eq!(t.processed.content, Content::Transparent);
        if frame == 2 {
            t.on_resize(Extent::new(640, 480));
        }
    }
}

#[test]
fn grading_not_ready_changes_nothing_processed() {
    let mut t = startup();
    let s = mirror(&world());
    let all = vec![RAW, PROCESSED, LUT];
    run_frame(&mut t, 1, &s, true, true, &all);
    let graded = t.processed;
    run_frame(&mut t, 2, &s, false, true, &all);
    run_frame(&mut t, 3, &s, false, true, &all);
    assert_eq!(t.processed, graded);
    assert_eq!(t.raw.content, Content::Scene { frame: 3 });
}

#[test]
fn composite_reads_this_frames_grading() {
    let mut t = startup();
    let s = mirror(&world());
    let all = vec![RAW, PROCESSED, LUT];
    for frame in 10..13u64 {
        let r = run_frame(&mut t, frame, &s, true, true, &all);
        assert_eq!(r.composited_background, Some(Content::Graded { frame }));
    }
}

#[test]
fn resize_mid_sequence_next_frame_uses_new_size() {
    let mut t = startup();
    let s = mirror(&world());
    let all = vec![RAW, PROCESSED, LUT];
    run_frame(&mut t, 1, &s, true, true, &all);
    t.apply_resize_events(&vec![Extent::new(800, 600)]);
    assert_eq!(t.processed.content, Content::Transparent);
    let r = run_frame(&mut t, 2, &s, true, true, &all);
    assert_eq!(t.raw.size, Extent::new(800, 600));
    assert_eq!(t.processed.size, Extent::new(800, 600));
    assert_eq!(t.raw.content, Content::Scene { frame: 2 });
    assert_eq!(r.composited_background, Some(Content::Graded { frame: 2 }));
}

#[test]
fn missing_lut_binding_skips_grading_only() {
    let mut t = startup();
    let mut w = world();
    w.lut_sources.clear();
    let s = mirror(&w);
    let r = run_frame(&mut t, 4, &s, true, true, &vec![RAW, PROCESSED, LUT]);
    assert_eq!(r.lut, None);
    assert_eq!(r.output, FrameOutput::MainUnmodified);
    assert_eq!(t.processed.content, Content::Transparent);
}

#[test]
fn composite_skip_leaves_output_unmodified() {
    let mut t = startup();
    let s = mirror(&world());
    let r = run_frame(&mut t, 4, &s, true, false, &vec![RAW, PROCESSED, LUT]);
    assert_eq!(r.composited_background, None);
    assert_eq!(r.output, FrameOutput::MainUnmodified);
    assert_eq!(t.processed.content, Content::Graded { frame: 4 });
}
