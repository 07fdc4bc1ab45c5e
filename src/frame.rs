use vstd::prelude::*;

use crate::background_camera::{
    spec_resized, BackgroundLutSource, BackgroundProcessedRenderTarget, BackgroundRenderTarget,
    RenderTargets,
};
use crate::background_lut::{spec_lut_node, BackgroundLutNode, LutNodeInputs};
use crate::camera_plugin::CameraTarget;
use crate::composite_pass::{spec_composite_node, CompositeNode, CompositeNodeInputs};
use crate::render_graph::{ColorTarget, NodeOutcome};
use crate::surface::{Content, Extent, ImageHandle, Surface};

verus! {

/// The resources of the simulation context that the render context needs.
#[derive(Clone, Debug)]
pub struct SimulationResources {
    pub raw_target: Option<BackgroundRenderTarget>,
    pub processed_target: Option<BackgroundProcessedRenderTarget>,
    /// LUT bindings of the spawned background cameras; the first is the active one.
    pub lut_sources: Vec<BackgroundLutSource>,
}

/// A read-only copy of those resources, valid for one frame of the render context.
#[derive(Clone, Copy, Debug, PartialEq, Eq, Structural)]
pub struct RenderSnapshot {
    pub raw_target: Option<ImageHandle>,
    pub processed_target: Option<ImageHandle>,
    pub lut_texture: Option<ImageHandle>,
}

pub open spec fn spec_mirror(world: SimulationResources) -> RenderSnapshot {
    RenderSnapshot {
        raw_target: match world.raw_target {
            Some(t) => Some(t.handle),
            None => None,
        },
        processed_target: match world.processed_target {
            Some(t) => Some(t.handle),
            None => None,
        },
        lut_texture: if world.lut_sources.len() > 0 {
            Some(world.lut_sources@[0].lut_texture)
        } else {
            None
        },
    }
}

/// Copies the frame's values out of the simulation context.
pub fn mirror(world: &SimulationResources) -> (r: RenderSnapshot)
    ensures
        r == spec_mirror(*world),
{
    RenderSnapshot {
        raw_target: match world.raw_target {
            Some(t) => Some(t.handle),
            None => None,
        },
        processed_target: match world.processed_target {
            Some(t) => Some(t.handle),
            None => None,
        },
        lut_texture: if world.lut_sources.len() > 0 {
            Some(world.lut_sources[0].lut_texture)
        } else {
            None
        },
    }
}

impl RenderSnapshot {
    /// Every handle present in the snapshot is the one the targets hold.
    pub open spec fn mirrors(self, t: RenderTargets) -> bool {
        &&& (self.raw_target is Some ==> self.raw_target->0 == t.raw.handle)
        &&& (self.processed_target is Some ==> self.processed_target->0 == t.processed.handle)
    }
}

/// What reaches tone-mapping from the main camera.
#[derive(Clone, Copy, Debug, PartialEq, Eq, Structural)]
pub enum FrameOutput {
    /// The main camera's own output, unchanged.
    MainUnmodified,
    /// The main camera's output over the given background content.
    MainOver { background: Content },
}

/// What one frame did.
#[derive(Clone, Copy, Debug, PartialEq, Eq, Structural)]
pub struct FrameReport {
    /// The grading node's outcome; absent when no background camera carries a LUT.
    pub lut: Option<NodeOutcome>,
    pub composite: NodeOutcome,
    /// What the composite node read from the processed surface, if it drew.
    pub composited_background: Option<Content>,
    pub output: FrameOutput,
}

/// Grading maps a scene through the LUT; other contents pass unchanged.
pub open spec fn spec_graded(c: Content) -> Content {
    match c {
        Content::Scene { frame } => Content::Graded { frame },
        _ => c,
    }
}

/// A transparent background leaves the main camera's output as it is.
pub open spec fn spec_blend(background: Content) -> FrameOutput {
    if background == Content::Transparent {
        FrameOutput::MainUnmodified
    } else {
        FrameOutput::MainOver { background }
    }
}

pub open spec fn spec_lut_inputs(t: RenderTargets, s: RenderSnapshot, ready: bool) -> LutNodeInputs {
    LutNodeInputs {
        view_target: Some(CameraTarget::Image(t.raw.handle)),
        raw_target: s.raw_target,
        processed_target: s.processed_target,
        lut_texture: s.lut_texture->0,
        pipeline_ready: ready,
    }
}

/// The targets once the background pass has drawn in `frame`.
pub open spec fn spec_after_scene(t: RenderTargets, frame: u64) -> RenderTargets {
    RenderTargets {
        raw: Surface { content: Content::Scene { frame }, ..t.raw },
        processed: t.processed,
    }
}

pub open spec fn spec_lut_outcome(
    t: RenderTargets,
    frame: u64,
    s: RenderSnapshot,
    lut_ready: bool,
    resident: Seq<ImageHandle>,
) -> Option<NodeOutcome> {
    if s.lut_texture is Some {
        Some(spec_lut_node(spec_lut_inputs(spec_after_scene(t, frame), s, lut_ready), resident))
    } else {
        None
    }
}

/// The targets at the end of `frame`: the raw surface holds the frame's
/// scene; the processed surface holds its grading if the grading node drew.
pub open spec fn spec_frame_targets(
    t: RenderTargets,
    frame: u64,
    s: RenderSnapshot,
    lut_ready: bool,
    resident: Seq<ImageHandle>,
) -> RenderTargets {
    let a = spec_after_scene(t, frame);
    if spec_lut_outcome(t, frame, s, lut_ready, resident) matches Some(NodeOutcome::Draw(_)) {
        RenderTargets {
            raw: a.raw,
            processed: Surface { content: spec_graded(a.raw.content), ..a.processed },
        }
    } else {
        a
    }
}

pub open spec fn spec_frame_report(
    t: RenderTargets,
    frame: u64,
    s: RenderSnapshot,
    lut_ready: bool,
    composite_ready: bool,
    resident: Seq<ImageHandle>,
) -> FrameReport {
    let g = spec_frame_targets(t, frame, s, lut_ready, resident);
    let c = spec_composite_node(
        CompositeNodeInputs { pipeline_ready: composite_ready, processed_target: s.processed_target },
        resident,
    );
    FrameReport {
        lut: spec_lut_outcome(t, frame, s, lut_ready, resident),
        composite: c,
        composited_background: if c is Draw {
            Some(g.processed.content)
        } else {
            None
        },
        output: if c is Draw {
            spec_blend(g.processed.content)
        } else {
            FrameOutput::MainUnmodified
        },
    }
}

/// Runs one frame's passes in graph order: background scene into the raw
/// surface, grading into the processed surface, compositing into the main
/// camera's output.
pub fn run_frame(
    targets: &mut RenderTargets,
    frame: u64,
    snapshot: &RenderSnapshot,
    lut_ready: bool,
    composite_ready: bool,
    resident: &Vec<ImageHandle>,
) -> (r: FrameReport)
    requires
        old(targets).wf(),
        snapshot.mirrors(*old(targets)),
    ensures
        *final(targets) == spec_frame_targets(*old(targets), frame, *snapshot, lut_ready, resident@),
        r == spec_frame_report(*old(targets), frame, *snapshot, lut_ready, composite_ready, resident@),
        final(targets).wf(),
{
    targets.raw.content = Content::Scene { frame };

    let lut = match snapshot.lut_texture {
        Some(lut_texture) => {
            let inputs = LutNodeInputs {
                view_target: Some(CameraTarget::Image(targets.raw.handle)),
                raw_target: snapshot.raw_target,
                processed_target: snapshot.processed_target,
                lut_texture,
                pipeline_ready: lut_ready,
            };
            let outcome = BackgroundLutNode.run(&inputs, resident);
            if let NodeOutcome::Draw(d) = outcome {
                if d.target == ColorTarget::Image(targets.processed.handle) {
                    targets.processed.content = Content::Graded { frame };
                }
            }
            Some(outcome)
        },
        None => None,
    };

    let composite = CompositeNode.run(
        &CompositeNodeInputs { pipeline_ready: composite_ready, processed_target: snapshot.processed_target },
        resident,
    );
    let (composited_background, output) = match composite {
        NodeOutcome::Draw(_) => {
            let background = targets.processed.content;
            let output = if background == Content::Transparent {
                FrameOutput::MainUnmodified
            } else {
                FrameOutput::MainOver { background }
            };
            (Some(background), output)
        },
        NodeOutcome::Skip { .. } => (None, FrameOutput::MainUnmodified),
    };
    FrameReport { lut, composite, composited_background, output }
}

} // verus!

verus! {

/// When both the grading node and the composite node draw in a frame, the
/// composite node reads the grading of that very frame's scene.
pub proof fn lemma_composite_reads_same_frame(
    t: RenderTargets,
    frame: u64,
    s: RenderSnapshot,
    lut_ready: bool,
    composite_ready: bool,
    resident: Seq<ImageHandle>,
)
    requires
        t.wf(),
        s.mirrors(t),
        spec_frame_report(t, frame, s, lut_ready, composite_ready, resident).lut matches Some(
            NodeOutcome::Draw(_),
        ),
        spec_frame_report(t, frame, s, lut_ready, composite_ready, resident).composite is Draw,
    ensures
        spec_frame_report(t, frame, s, lut_ready, composite_ready, resident).composited_background
            == Some(Content::Graded { frame }),
{
}

/// While the grading pipeline is not ready, a frame leaves the processed
/// surface exactly as it was and submits no grading draw, however many
/// frames run in that state.
pub proof fn lemma_grading_not_ready_is_idle(
    t: RenderTargets,
    first: u64,
    second: u64,
    s: RenderSnapshot,
    resident: Seq<ImageHandle>,
)
    requires
        t.wf(),
    ensures
        spec_frame_targets(t, first, s, false, resident).processed == t.processed,
        spec_frame_targets(
            spec_frame_targets(t, first, s, false, resident),
            second,
            s,
            false,
            resident,
        ).processed == t.processed,
        !(spec_lut_outcome(t, first, s, false, resident) matches Some(NodeOutcome::Draw(_))),
{
}

/// A processed surface that was never graded composites as fully
/// transparent: the frame's output is the main camera's own, and the surface
/// stays transparent for the next frame.
pub proof fn lemma_ungraded_background_is_transparent(
    t: RenderTargets,
    frame: u64,
    s: RenderSnapshot,
    composite_ready: bool,
    resident: Seq<ImageHandle>,
)
    requires
        t.wf(),
        t.processed.content == Content::Transparent,
    ensures
        spec_frame_report(t, frame, s, false, composite_ready, resident).output
            == FrameOutput::MainUnmodified,
        spec_frame_targets(t, frame, s, false, resident).processed.content == Content::Transparent,
{
}

/// The frames that follow initialisation while the grading pipeline never
/// becomes ready, with the window resized before each frame as `sizes` says
/// (a zero-sized entry leaves the size as it is).
pub open spec fn spec_frames_without_grading(
    t: RenderTargets,
    sizes: Seq<Extent>,
    s: RenderSnapshot,
    resident: Seq<ImageHandle>,
) -> RenderTargets
    decreases sizes.len(),
{
    if sizes.len() == 0 {
        t
    } else {
        let before = spec_frames_without_grading(t, sizes.drop_last(), s, resident);
        let resized = if sizes.last().is_positive() {
            spec_resized(before, sizes.last())
        } else {
            before
        };
        spec_frame_targets(resized, (sizes.len() - 1) as u64, s, false, resident)
    }
}

/// Starting from freshly allocated targets and with the grading pipeline
/// never ready, the processed surface stays transparent through any
/// sequence of frames and resizes, so every frame's output is the main
/// camera's own.
pub proof fn lemma_never_graded_output_is_main(
    t: RenderTargets,
    sizes: Seq<Extent>,
    frame: u64,
    s: RenderSnapshot,
    composite_ready: bool,
    resident: Seq<ImageHandle>,
)
    requires
        t.wf(),
        t.processed.content == Content::Transparent,
    ensures
        spec_frames_without_grading(t, sizes, s, resident).wf(),
        spec_frames_without_grading(t, sizes, s, resident).processed.content == Content::Transparent,
        spec_frame_report(
            spec_frames_without_grading(t, sizes, s, resident),
            frame,
            s,
            false,
            composite_ready,
            resident,
        ).output == FrameOutput::MainUnmodified,
    decreases sizes.len(),
{
    if sizes.len() > 0 {
        lemma_never_graded_output_is_main(t, sizes.drop_last(), frame, s, composite_ready, resident);
    }
}

/// After a resize, the next frame's background pass draws into a raw surface
/// of the new size, and every surface a pass reads or writes in that frame
/// has the new size.
pub proof fn lemma_frame_after_resize(
    t: RenderTargets,
    size: Extent,
    frame: u64,
    s: RenderSnapshot,
    lut_ready: bool,
    resident: Seq<ImageHandle>,
)
    requires
        t.wf(),
        size.is_positive(),
    ensures
        spec_after_scene(spec_resized(t, size), frame).raw.size == size,
        spec_after_scene(spec_resized(t, size), frame).raw.content == (Content::Scene { frame }),
        spec_frame_targets(spec_resized(t, size), frame, s, lut_ready, resident).raw.size == size,
        spec_frame_targets(spec_resized(t, size), frame, s, lut_ready, resident).processed.size
            == size,
        spec_frame_targets(spec_resized(t, size), frame, s, lut_ready, resident).wf(),
{
}

} // verus!
