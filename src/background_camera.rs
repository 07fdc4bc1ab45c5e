use vstd::prelude::*;

use crate::camera_plugin::{CameraConfig, CameraLayers, CameraTarget};
use crate::surface::{
    spec_surface_descriptor, surface_descriptor, Content, Extent, ImageHandle, Surface,
    SurfaceDescriptor, SurfaceKind,
};

verus! {

/// Marks the camera that renders the background layer.
#[derive(Clone, Copy, Debug, PartialEq, Eq, Structural)]
pub struct BackgroundCamera;

/// Binds the background camera to the LUT texture that grades its output.
#[derive(Clone, Copy, Debug, PartialEq, Eq, Structural)]
pub struct BackgroundLutSource {
    pub lut_texture: ImageHandle,
}

impl Default for BackgroundLutSource {
    fn default() -> (r: Self)
        ensures
            r.lut_texture == ImageHandle::spec_placeholder(),
    {
        BackgroundLutSource { lut_texture: ImageHandle::placeholder() }
    }
}

/// The handle of the raw background surface, as a frame-referenceable resource.
#[derive(Clone, Copy, Debug, PartialEq, Eq, Structural)]
pub struct BackgroundRenderTarget {
    pub handle: ImageHandle,
}

impl Default for BackgroundRenderTarget {
    fn default() -> (r: Self)
        ensures
            r.handle == ImageHandle::spec_placeholder(),
    {
        BackgroundRenderTarget { handle: ImageHandle::placeholder() }
    }
}

/// The handle of the processed (graded) background surface.
#[derive(Clone, Copy, Debug, PartialEq, Eq, Structural)]
pub struct BackgroundProcessedRenderTarget {
    pub handle: ImageHandle,
}

impl Default for BackgroundProcessedRenderTarget {
    fn default() -> (r: Self)
        ensures
            r.handle == ImageHandle::spec_placeholder(),
    {
        BackgroundProcessedRenderTarget { handle: ImageHandle::placeholder() }
    }
}

/// Sets up the background camera and keeps its two surfaces sized to the window.
#[derive(Clone, Copy, Debug, PartialEq, Eq, Structural)]
pub struct BackgroundCameraPlugin;

/// The background camera: renders the background layer, first of all
/// cameras, into the raw surface, cleared to transparent.
pub open spec fn spec_background_camera_config(raw: ImageHandle) -> CameraConfig {
    CameraConfig {
        order: CameraLayers::Background.spec_index(),
        target: CameraTarget::Image(raw),
        clear_transparent: true,
        hdr: false,
        layer: CameraLayers::Background,
    }
}

impl BackgroundCameraPlugin {
    /// Descriptors of the raw and the processed surface for a window of the given size.
    pub fn target_descriptors(&self, window: Extent) -> (r: (SurfaceDescriptor, SurfaceDescriptor))
        ensures
            r.0 == spec_surface_descriptor(SurfaceKind::Raw, window),
            r.1 == spec_surface_descriptor(SurfaceKind::Processed, window),
    {
        (surface_descriptor(SurfaceKind::Raw, window), surface_descriptor(SurfaceKind::Processed, window))
    }

    /// Settings of the background camera, which renders into the raw surface.
    pub fn background_camera_config(&self, raw: ImageHandle) -> (r: CameraConfig)
        ensures
            r == spec_background_camera_config(raw),
    {
        CameraConfig {
            order: CameraLayers::Background.index(),
            target: CameraTarget::Image(raw),
            clear_transparent: true,
            hdr: false,
            layer: CameraLayers::Background,
        }
    }
}

/// The raw and the processed background surfaces, owned together.
#[derive(Clone, Copy, Debug, PartialEq, Eq, Structural)]
pub struct RenderTargets {
    pub raw: Surface,
    pub processed: Surface,
}

/// Both surfaces after a resize to `size`: same handles, new size, contents cleared.
pub open spec fn spec_resized(t: RenderTargets, size: Extent) -> RenderTargets {
    RenderTargets {
        raw: Surface { handle: t.raw.handle, size, content: Content::Transparent },
        processed: Surface { handle: t.processed.handle, size, content: Content::Transparent },
    }
}

/// The targets after a sequence of window-resize events, in order; an event
/// with a zero dimension is passed over.
pub open spec fn spec_apply_resizes(t: RenderTargets, events: Seq<Extent>) -> RenderTargets
    decreases events.len(),
{
    if events.len() == 0 {
        t
    } else {
        let before = spec_apply_resizes(t, events.drop_last());
        if events.last().is_positive() {
            spec_resized(before, events.last())
        } else {
            before
        }
    }
}

impl RenderTargets {
    /// Both surfaces have the same positive size and distinct handles.
    pub open spec fn wf(&self) -> bool {
        &&& self.raw.size == self.processed.size
        &&& self.raw.size.is_positive()
        &&& self.raw.handle != self.processed.handle
    }

    /// The two surfaces of a window of size `window`, both transparent, under
    /// the handles that their allocation was registered with.
    pub fn initialize(window: Extent, raw_handle: ImageHandle, processed_handle: ImageHandle) -> (r:
        RenderTargets)
        requires
            window.is_positive(),
            raw_handle != processed_handle,
        ensures
            r.wf(),
            r.raw == (Surface { handle: raw_handle, size: window, content: Content::Transparent }),
            r.processed == (Surface {
                handle: processed_handle,
                size: window,
                content: Content::Transparent,
            }),
    {
        RenderTargets {
            raw: Surface { handle: raw_handle, size: window, content: Content::Transparent },
            processed: Surface {
                handle: processed_handle,
                size: window,
                content: Content::Transparent,
            },
        }
    }

    /// Reallocates both surfaces at `size`, keeping their handles.
    pub fn on_resize(&mut self, size: Extent)
        requires
            old(self).wf(),
            size.is_positive(),
        ensures
            *final(self) == spec_resized(*old(self), size),
            final(self).wf(),
            final(self).raw.size == size,
            final(self).processed.size == size,
    {
        self.raw = Surface { handle: self.raw.handle, size, content: Content::Transparent };
        self.processed = Surface {
            handle: self.processed.handle,
            size,
            content: Content::Transparent,
        };
    }

    /// Applies the window-resize events of one frame in order, both surfaces
    /// in lockstep; events with a zero dimension are passed over.
    pub fn apply_resize_events(&mut self, events: &Vec<Extent>)
        requires
            old(self).wf(),
        ensures
            *final(self) == spec_apply_resizes(*old(self), events@),
            final(self).wf(),
    {
        let ghost start = *self;
        let mut i: usize = 0;
        while i < events.len()
            invariant
                i <= events.len(),
                self.wf(),
                *self == spec_apply_resizes(start, events@.take(i as int)),
                self.raw.handle == start.raw.handle,
                self.processed.handle == start.processed.handle,
            decreases events.len() - i,
        {
            let e = events[i];
            if e.positive() {
                self.on_resize(e);
            }
            assert(events@.take(i + 1).drop_last() == events@.take(i as int));
            i = i + 1;
        }
        assert(events@.take(events.len() as int) == events@);
    }

    pub fn raw_target(&self) -> (r: BackgroundRenderTarget)
        ensures
            r.handle == self.raw.handle,
    {
        BackgroundRenderTarget { handle: self.raw.handle }
    }

    pub fn processed_target(&self) -> (r: BackgroundProcessedRenderTarget)
        ensures
            r.handle == self.processed.handle,
    {
        BackgroundProcessedRenderTarget { handle: self.processed.handle }
    }
}

} // verus!

verus! {

/// Whatever the window's new size W×H with W, H > 0, once the frame's resize
/// events end with it, both surfaces report exactly W×H, keep their handles,
/// and remain equal in size.
pub proof fn lemma_resize_events_size(t: RenderTargets, events: Seq<Extent>)
    requires
        t.wf(),
        events.len() > 0,
        events.last().is_positive(),
    ensures
        spec_apply_resizes(t, events).raw.size == events.last(),
        spec_apply_resizes(t, events).processed.size == events.last(),
        spec_apply_resizes(t, events).raw.handle == t.raw.handle,
        spec_apply_resizes(t, events).processed.handle == t.processed.handle,
        spec_apply_resizes(t, events).wf(),
{
    lemma_apply_resizes_keeps_handles(t, events.drop_last());
}

/// Resize events never change the handles, nor break well-formedness.
pub proof fn lemma_apply_resizes_keeps_handles(t: RenderTargets, events: Seq<Extent>)
    requires
        t.wf(),
    ensures
        spec_apply_resizes(t, events).raw.handle == t.raw.handle,
        spec_apply_resizes(t, events).processed.handle == t.processed.handle,
        spec_apply_resizes(t, events).wf(),
    decreases events.len(),
{
    if events.len() > 0 {
        lemma_apply_resizes_keeps_handles(t, events.drop_last());
    }
}

} // verus!
