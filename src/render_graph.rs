use vstd::prelude::*;

use crate::surface::ImageHandle;

verus! {

/// The render-graph nodes that the pipeline registers or orders itself against.
#[derive(Clone, Copy, Debug, PartialEq, Eq, Structural)]
pub enum NodeLabel {
    /// End of the 2D main pass: the background scene has been rasterised.
    EndMainPass,
    BackgroundLut,
    Composite,
    Tonemapping,
}

/// Why a node produced no draw for this invocation.
#[derive(Clone, Copy, Debug, PartialEq, Eq, Structural)]
pub enum SkipReason {
    WrongView,
    ResourceMissing,
    PipelineNotReady,
}

/// How loudly a skipped invocation is reported.
#[derive(Clone, Copy, Debug, PartialEq, Eq, Structural)]
pub enum Severity {
    Silent,
    Info,
    Warn,
    Error,
}

/// A texture bound for sampling.
#[derive(Clone, Copy, Debug, PartialEq, Eq, Structural)]
pub enum TextureRef {
    Image(ImageHandle),
    /// The source half of the main camera's post-process ping-pong pair.
    MainSource,
}

/// Which configured sampler is bound.
#[derive(Clone, Copy, Debug, PartialEq, Eq, Structural)]
pub enum SamplerRole {
    Source,
    Lut,
    Main,
    Background,
}

/// The surface a draw writes into.
#[derive(Clone, Copy, Debug, PartialEq, Eq, Structural)]
pub enum ColorTarget {
    Image(ImageHandle),
    /// The destination half of the main camera's post-process ping-pong pair.
    MainDestination,
}

/// One bind group in binding-index order: primary texture, primary sampler,
/// secondary texture, secondary sampler.
#[derive(Clone, Copy, Debug, PartialEq, Eq, Structural)]
pub struct BindGroup {
    pub primary_texture: TextureRef,
    pub primary_sampler: SamplerRole,
    pub secondary_texture: TextureRef,
    pub secondary_sampler: SamplerRole,
}

/// One full-screen draw submitted by a node.
#[derive(Clone, Copy, Debug, PartialEq, Eq, Structural)]
pub struct DrawCall {
    pub bind_group: BindGroup,
    pub target: ColorTarget,
    /// The target's previous contents are discarded, not blended with.
    pub clear_load: bool,
    pub vertex_count: u32,
    pub instance_count: u32,
    pub indexed: bool,
}

/// A full-screen triangle: three vertices, one instance, no index buffer,
/// writing into `target` with a clearing load.
pub open spec fn spec_fullscreen_draw(bind_group: BindGroup, target: ColorTarget) -> DrawCall {
    DrawCall {
        bind_group,
        target,
        clear_load: true,
        vertex_count: 3,
        instance_count: 1,
        indexed: false,
    }
}

pub fn fullscreen_draw(bind_group: BindGroup, target: ColorTarget) -> (r: DrawCall)
    ensures
        r == spec_fullscreen_draw(bind_group, target),
{
    DrawCall {
        bind_group,
        target,
        clear_load: true,
        vertex_count: 3,
        instance_count: 1,
        indexed: false,
    }
}

/// What one invocation of a node did: nothing, or one draw.
#[derive(Clone, Copy, Debug, PartialEq, Eq, Structural)]
pub enum NodeOutcome {
    Skip { reason: SkipReason, severity: Severity },
    Draw(DrawCall),
}

/// Whether `h` is resident on the device.
pub fn is_resident(resident: &Vec<ImageHandle>, h: ImageHandle) -> (r: bool)
    ensures
        r == resident@.contains(h),
{
    let mut i: usize = 0;
    while i < resident.len()
        invariant
            i <= resident.len(),
            forall|j: int| 0 <= j < i ==> resident@[j] != h,
        decreases resident.len() - i,
    {
        if resident[i] == h {
            assert(resident@[i as int] == h);
            return true;
        }
        i = i + 1;
    }
    false
}

/// Kinds of the entries of a bind-group layout.
#[derive(Clone, Copy, Debug, PartialEq, Eq, Structural)]
pub enum BindingKind {
    FilterableTexture2d,
    FilteringSampler,
}

/// Texture addressing outside [0, 1].
#[derive(Clone, Copy, Debug, PartialEq, Eq, Structural)]
pub enum AddressMode {
    ClampToEdge,
    Repeat,
    MirrorRepeat,
}

#[derive(Clone, Copy, Debug, PartialEq, Eq, Structural)]
pub enum FilterMode {
    Nearest,
    Linear,
}

/// Addressing (on all three axes) and filtering of a sampler.
#[derive(Clone, Copy, Debug, PartialEq, Eq, Structural)]
pub struct SamplerConfig {
    pub address_mode: AddressMode,
    pub mag_filter: FilterMode,
    pub min_filter: FilterMode,
    pub mipmap_filter: FilterMode,
}

/// The device's default sampler: clamped addressing, nearest filtering.
pub open spec fn spec_default_sampler() -> SamplerConfig {
    SamplerConfig {
        address_mode: AddressMode::ClampToEdge,
        mag_filter: FilterMode::Nearest,
        min_filter: FilterMode::Nearest,
        mipmap_filter: FilterMode::Nearest,
    }
}

pub fn default_sampler() -> (r: SamplerConfig)
    ensures
        r == spec_default_sampler(),
{
    SamplerConfig {
        address_mode: AddressMode::ClampToEdge,
        mag_filter: FilterMode::Nearest,
        min_filter: FilterMode::Nearest,
        mipmap_filter: FilterMode::Nearest,
    }
}

/// The layout both passes use: texture, sampler, texture, sampler, all
/// visible to the fragment stage.
pub open spec fn spec_pass_layout() -> Seq<BindingKind> {
    seq![
        BindingKind::FilterableTexture2d,
        BindingKind::FilteringSampler,
        BindingKind::FilterableTexture2d,
        BindingKind::FilteringSampler,
    ]
}

pub fn pass_layout() -> (r: Vec<BindingKind>)
    ensures
        r@ == spec_pass_layout(),
{
    let r = vec![
        BindingKind::FilterableTexture2d,
        BindingKind::FilteringSampler,
        BindingKind::FilterableTexture2d,
        BindingKind::FilteringSampler,
    ];
    assert(r@ =~= spec_pass_layout());
    r
}

} // verus!

verus! {

/// The ordering edges of the pipeline, each `(before, after)`: the background
/// scene is rasterised before grading and compositing, grading precedes
/// compositing, and compositing precedes tone-mapping.
pub open spec fn spec_pipeline_edges() -> Seq<(NodeLabel, NodeLabel)> {
    seq![
        (NodeLabel::EndMainPass, NodeLabel::BackgroundLut),
        (NodeLabel::EndMainPass, NodeLabel::Composite),
        (NodeLabel::BackgroundLut, NodeLabel::Composite),
        (NodeLabel::Composite, NodeLabel::Tonemapping),
    ]
}

pub fn pipeline_edges() -> (r: Vec<(NodeLabel, NodeLabel)>)
    ensures
        r@ == spec_pipeline_edges(),
{
    let r = vec![
        (NodeLabel::EndMainPass, NodeLabel::BackgroundLut),
        (NodeLabel::EndMainPass, NodeLabel::Composite),
        (NodeLabel::BackgroundLut, NodeLabel::Composite),
        (NodeLabel::Composite, NodeLabel::Tonemapping),
    ];
    assert(r@ =~= spec_pipeline_edges());
    r
}

/// The order in which one frame runs the passes.
pub open spec fn spec_pass_order() -> Seq<NodeLabel> {
    seq![NodeLabel::EndMainPass, NodeLabel::BackgroundLut, NodeLabel::Composite, NodeLabel::Tonemapping]
}

/// Position of a node in the frame's pass order.
pub open spec fn spec_position(n: NodeLabel) -> int {
    match n {
        NodeLabel::EndMainPass => 0,
        NodeLabel::BackgroundLut => 1,
        NodeLabel::Composite => 2,
        NodeLabel::Tonemapping => 3,
    }
}

/// The pass order lists every node once, and runs the source of every
/// ordering edge strictly before its destination.
pub proof fn lemma_pass_order_respects_edges()
    ensures
        spec_pass_order().len() == 4,
        forall|n: NodeLabel| #[trigger] spec_pass_order()[spec_position(n)] == n,
        forall|k: int| 0 <= k < 4 ==> spec_position(#[trigger] spec_pass_order()[k]) == k,
        forall|e: int|
            0 <= e < spec_pipeline_edges().len() ==> spec_position(
                #[trigger] spec_pipeline_edges()[e].0,
            ) < spec_position(spec_pipeline_edges()[e].1),
{
    assert forall|n: NodeLabel| #[trigger] spec_pass_order()[spec_position(n)] == n by {
        match n {
            NodeLabel::EndMainPass => {},
            NodeLabel::BackgroundLut => {},
            NodeLabel::Composite => {},
            NodeLabel::Tonemapping => {},
        }
    }
}

} // verus!
