use vstd::prelude::*;

use crate::render_graph::{
    default_sampler, fullscreen_draw, is_resident, pass_layout, pipeline_edges,
    spec_default_sampler, spec_fullscreen_draw, spec_pass_layout, spec_pipeline_edges, BindGroup,
    BindingKind, ColorTarget, NodeLabel, NodeOutcome, SamplerConfig, SamplerRole, Severity,
    SkipReason, TextureRef,
};
use crate::surface::ImageHandle;

verus! {

/// Registers the composite node, its ordering edges and its pipeline.
#[derive(Clone, Copy, Debug, PartialEq, Eq, Structural)]
pub struct CompositePlugin;

/// Label of the composite node in the render graph.
#[derive(Clone, Copy, Debug, PartialEq, Eq, Structural, Hash)]
pub struct CompositeLabel;

impl CompositeLabel {
    pub fn node(&self) -> (r: NodeLabel)
        ensures
            r == NodeLabel::Composite,
    {
        NodeLabel::Composite
    }
}

/// Which fragment program the composite pipeline runs.
#[derive(Clone, Copy, Debug, PartialEq, Eq, Structural)]
pub enum CompositeShader {
    /// The production blend of main camera over background.
    Blend,
    /// A split-screen view of both inputs, for inspection.
    DebugSplit,
}

/// Configuration of the composite pipeline.
#[derive(Clone, Copy, Debug, PartialEq, Eq, Structural)]
pub struct CompositePipeline {
    pub shader: CompositeShader,
    pub main_sampler: SamplerConfig,
    pub background_sampler: SamplerConfig,
    /// The fragment program computes the final value; no fixed-function blending.
    pub blend: bool,
}

pub open spec fn spec_composite_pipeline(shader: CompositeShader) -> CompositePipeline {
    CompositePipeline {
        shader,
        main_sampler: spec_default_sampler(),
        background_sampler: spec_default_sampler(),
        blend: false,
    }
}

impl CompositePipeline {
    pub fn new(shader: CompositeShader) -> (r: CompositePipeline)
        ensures
            r == spec_composite_pipeline(shader),
    {
        CompositePipeline {
            shader,
            main_sampler: default_sampler(),
            background_sampler: default_sampler(),
            blend: false,
        }
    }

    /// Bind-group layout: main texture, its sampler, background texture, its sampler.
    pub fn layout(&self) -> (r: Vec<BindingKind>)
        ensures
            r@ == spec_pass_layout(),
    {
        pass_layout()
    }
}

impl CompositePlugin {
    /// The node this plugin adds to the 2D graph.
    pub fn label(&self) -> (r: CompositeLabel)
        ensures
            r == CompositeLabel,
    {
        CompositeLabel
    }

    /// The ordering edges this plugin registers.
    pub fn graph_edges(&self) -> (r: Vec<(NodeLabel, NodeLabel)>)
        ensures
            r@ == spec_pipeline_edges(),
    {
        pipeline_edges()
    }

    /// The pipeline this plugin sets up once the render context exists.
    pub fn pipeline(&self, shader: CompositeShader) -> (r: CompositePipeline)
        ensures
            r == spec_composite_pipeline(shader),
    {
        CompositePipeline::new(shader)
    }
}

/// What the composite node sees of the main view in one frame.
#[derive(Clone, Copy, Debug, PartialEq, Eq, Structural)]
pub struct CompositeNodeInputs {
    /// The composite pipeline has finished compiling.
    pub pipeline_ready: bool,
    /// The mirrored processed-surface handle.
    pub processed_target: Option<ImageHandle>,
}

/// The composite draw: main-camera source and processed background in, the
/// main camera's post-process destination out.
pub open spec fn spec_composite_draw(processed: ImageHandle) -> NodeOutcome {
    NodeOutcome::Draw(
        spec_fullscreen_draw(
            BindGroup {
                primary_texture: TextureRef::MainSource,
                primary_sampler: SamplerRole::Main,
                secondary_texture: TextureRef::Image(processed),
                secondary_sampler: SamplerRole::Background,
            },
            ColorTarget::MainDestination,
        ),
    )
}

/// One invocation of the composite node: pipeline ready; processed handle
/// present (its absence is reported as an error); processed surface resident.
pub open spec fn spec_composite_node(i: CompositeNodeInputs, resident: Seq<ImageHandle>) -> NodeOutcome {
    if !i.pipeline_ready {
        NodeOutcome::Skip { reason: SkipReason::PipelineNotReady, severity: Severity::Info }
    } else if i.processed_target is None {
        NodeOutcome::Skip { reason: SkipReason::ResourceMissing, severity: Severity::Error }
    } else if !resident.contains(i.processed_target->0) {
        NodeOutcome::Skip { reason: SkipReason::ResourceMissing, severity: Severity::Info }
    } else {
        spec_composite_draw(i.processed_target->0)
    }
}

/// The render-graph node that blends the processed background under the main camera's output.
#[derive(Clone, Copy, Debug, PartialEq, Eq, Structural)]
pub struct CompositeNode;

impl CompositeNode {
    /// Decides what this invocation submits; `resident` lists the images
    /// that are on the device this frame.
    pub fn run(&self, inputs: &CompositeNodeInputs, resident: &Vec<ImageHandle>) -> (r: NodeOutcome)
        ensures
            r == spec_composite_node(*inputs, resident@),
            !inputs.pipeline_ready ==> r is Skip,
    {
        if !inputs.pipeline_ready {
            return NodeOutcome::Skip {
                reason: SkipReason::PipelineNotReady,
                severity: Severity::Info,
            };
        }
        let processed = match inputs.processed_target {
            Some(h) => h,
            None => {
                return NodeOutcome::Skip {
                    reason: SkipReason::ResourceMissing,
                    severity: Severity::Error,
                };
            },
        };
        if !is_resident(resident, processed) {
            return NodeOutcome::Skip {
                reason: SkipReason::ResourceMissing,
                severity: Severity::Info,
            };
        }
        NodeOutcome::Draw(
            fullscreen_draw(
                BindGroup {
                    primary_texture: TextureRef::MainSource,
                    primary_sampler: SamplerRole::Main,
                    secondary_texture: TextureRef::Image(processed),
                    secondary_sampler: SamplerRole::Background,
                },
                ColorTarget::MainDestination,
            ),
        )
    }
}

} // verus!
