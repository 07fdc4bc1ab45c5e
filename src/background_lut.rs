use vstd::prelude::*;

use crate::camera_plugin::CameraTarget;
use crate::render_graph::{
    default_sampler, fullscreen_draw, is_resident, pass_layout, spec_default_sampler,
    spec_fullscreen_draw, spec_pass_layout, AddressMode, BindGroup, BindingKind, ColorTarget,
    FilterMode, NodeLabel, NodeOutcome, SamplerConfig, SamplerRole, Severity, SkipReason,
    TextureRef,
};
use crate::surface::ImageHandle;

verus! {

/// Registers the LUT grading node and its pipeline in the render context.
#[derive(Clone, Copy, Debug, PartialEq, Eq, Structural)]
pub struct BackgroundLutPlugin;

/// Label of the LUT grading node in the render graph.
#[derive(Clone, Copy, Debug, PartialEq, Eq, Structural, Hash)]
pub struct BackgroundLutLabel;

impl BackgroundLutLabel {
    pub fn node(&self) -> (r: NodeLabel)
        ensures
            r == NodeLabel::BackgroundLut,
    {
        NodeLabel::BackgroundLut
    }
}

impl BackgroundLutPlugin {
    /// The node this plugin adds to the 2D graph.
    pub fn label(&self) -> (r: BackgroundLutLabel)
        ensures
            r == BackgroundLutLabel,
    {
        BackgroundLutLabel
    }

    /// The pipeline this plugin sets up once the render context exists.
    pub fn pipeline(&self) -> (r: BackgroundLutPipeline)
        ensures
            r == spec_lut_pipeline(),
    {
        BackgroundLutPipeline::new()
    }
}

/// Configuration of the grading pipeline; the compiled pipeline itself is
/// held by the device's pipeline cache and polled for readiness.
#[derive(Clone, Copy, Debug, PartialEq, Eq, Structural)]
pub struct BackgroundLutPipeline {
    pub source_sampler: SamplerConfig,
    pub lut_sampler: SamplerConfig,
    /// The output replaces the target's pixels; no fixed-function blending.
    pub blend: bool,
}

/// The LUT is sampled with clamped addressing, linear magnification and
/// minification and nearest mip selection; the raw surface with the default sampler.
pub open spec fn spec_lut_sampler() -> SamplerConfig {
    SamplerConfig {
        address_mode: AddressMode::ClampToEdge,
        mag_filter: FilterMode::Linear,
        min_filter: FilterMode::Linear,
        mipmap_filter: FilterMode::Nearest,
    }
}

pub open spec fn spec_lut_pipeline() -> BackgroundLutPipeline {
    BackgroundLutPipeline {
        source_sampler: spec_default_sampler(),
        lut_sampler: spec_lut_sampler(),
        blend: false,
    }
}

impl BackgroundLutPipeline {
    pub fn new() -> (r: BackgroundLutPipeline)
        ensures
            r == spec_lut_pipeline(),
    {
        BackgroundLutPipeline {
            source_sampler: default_sampler(),
            lut_sampler: SamplerConfig {
                address_mode: AddressMode::ClampToEdge,
                mag_filter: FilterMode::Linear,
                min_filter: FilterMode::Linear,
                mipmap_filter: FilterMode::Nearest,
            },
            blend: false,
        }
    }

    /// Bind-group layout: raw texture, its sampler, LUT texture, LUT sampler.
    pub fn layout(&self) -> (r: Vec<BindingKind>)
        ensures
            r@ == spec_pass_layout(),
    {
        pass_layout()
    }
}

/// What the grading node sees of one view in one frame.
#[derive(Clone, Copy, Debug, PartialEq, Eq, Structural)]
pub struct LutNodeInputs {
    /// The output target configured on the view's camera, if it has one.
    pub view_target: Option<CameraTarget>,
    /// The mirrored raw-surface handle, absent until initialised.
    pub raw_target: Option<ImageHandle>,
    /// The mirrored processed-surface handle, absent until initialised.
    pub processed_target: Option<ImageHandle>,
    /// The LUT bound to the view's camera.
    pub lut_texture: ImageHandle,
    /// The grading pipeline has finished compiling.
    pub pipeline_ready: bool,
}

/// The grading draw: raw surface and LUT in, processed surface out.
pub open spec fn spec_lut_draw(raw: ImageHandle, processed: ImageHandle, lut: ImageHandle) -> NodeOutcome {
    NodeOutcome::Draw(
        spec_fullscreen_draw(
            BindGroup {
                primary_texture: TextureRef::Image(raw),
                primary_sampler: SamplerRole::Source,
                secondary_texture: TextureRef::Image(lut),
                secondary_sampler: SamplerRole::Lut,
            },
            ColorTarget::Image(processed),
        ),
    )
}

/// One invocation of the grading node, checked in order: both mirrored
/// handles present; the view renders into the raw surface; pipeline ready;
/// LUT, raw and processed surfaces resident.
pub open spec fn spec_lut_node(i: LutNodeInputs, resident: Seq<ImageHandle>) -> NodeOutcome {
    if i.raw_target is None || i.processed_target is None {
        NodeOutcome::Skip { reason: SkipReason::ResourceMissing, severity: Severity::Warn }
    } else if i.view_target != Some(CameraTarget::Image(i.raw_target->0)) {
        NodeOutcome::Skip { reason: SkipReason::WrongView, severity: Severity::Silent }
    } else if !i.pipeline_ready {
        NodeOutcome::Skip { reason: SkipReason::PipelineNotReady, severity: Severity::Silent }
    } else if !resident.contains(i.lut_texture) {
        NodeOutcome::Skip { reason: SkipReason::ResourceMissing, severity: Severity::Silent }
    } else if !resident.contains(i.raw_target->0) || !resident.contains(i.processed_target->0) {
        NodeOutcome::Skip { reason: SkipReason::ResourceMissing, severity: Severity::Warn }
    } else {
        spec_lut_draw(i.raw_target->0, i.processed_target->0, i.lut_texture)
    }
}

/// The render-graph node that grades the raw background into the processed surface.
#[derive(Clone, Copy, Debug, PartialEq, Eq, Structural)]
pub struct BackgroundLutNode;

impl BackgroundLutNode {
    /// Decides what this invocation submits; `resident` lists the images
    /// that are on the device this frame.
    pub fn run(&self, inputs: &LutNodeInputs, resident: &Vec<ImageHandle>) -> (r: NodeOutcome)
        ensures
            r == spec_lut_node(*inputs, resident@),
            r is Draw ==> inputs.raw_target is Some && inputs.view_target == Some(
                CameraTarget::Image(inputs.raw_target->0),
            ),
            !inputs.pipeline_ready ==> r is Skip,
    {
        let (raw, processed) = match (inputs.raw_target, inputs.processed_target) {
            (Some(raw), Some(processed)) => (raw, processed),
            _ => {
                return NodeOutcome::Skip {
                    reason: SkipReason::ResourceMissing,
                    severity: Severity::Warn,
                };
            },
        };
        let matches_view = match inputs.view_target {
            Some(CameraTarget::Image(h)) => h == raw,
            _ => false,
        };
        if !matches_view {
            return NodeOutcome::Skip { reason: SkipReason::WrongView, severity: Severity::Silent };
        }
        if !inputs.pipeline_ready {
            return NodeOutcome::Skip {
                reason: SkipReason::PipelineNotReady,
                severity: Severity::Silent,
            };
        }
        if !is_resident(resident, inputs.lut_texture) {
            return NodeOutcome::Skip {
                reason: SkipReason::ResourceMissing,
                severity: Severity::Silent,
            };
        }
        if !is_resident(resident, raw) || !is_resident(resident, processed) {
            return NodeOutcome::Skip {
                reason: SkipReason::ResourceMissing,
                severity: Severity::Warn,
            };
        }
        NodeOutcome::Draw(
            fullscreen_draw(
                BindGroup {
                    primary_texture: TextureRef::Image(raw),
                    primary_sampler: SamplerRole::Source,
                    secondary_texture: TextureRef::Image(inputs.lut_texture),
                    secondary_sampler: SamplerRole::Lut,
                },
                ColorTarget::Image(processed),
            ),
        )
    }
}

} // verus!
