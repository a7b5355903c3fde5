use vstd::prelude::*;
use crate::camera::{CameraController, KeyCode};
use crate::depth_stencil::{at_least_one, StencilTexture};
use crate::frame::{frame_passes, frame_plan, PassPlan};
use crate::pipeline::{all_stages, Pipeline};

verus! {

/// Samples per pixel of the colour and depth/stencil targets.
pub const SAMPLE_COUNT: u32 = 4;

/// Which diffuse texture the opaque scene is drawn with.
#[derive(Clone, Copy, Debug, PartialEq, Eq, Structural)]
pub enum TextureChoice {
    Diffuse,
    Alternate,
}

/// Why acquiring the next surface texture failed.
#[derive(Clone, Copy, Debug, PartialEq, Eq, Structural)]
pub enum SurfaceErrorKind {
    Timeout,
    Outdated,
    Lost,
    OutOfMemory,
    Other,
}

/// What the caller does after a failed acquisition.
#[derive(Clone, Copy, Debug, PartialEq, Eq, Structural)]
pub enum FrameRecovery {
    /// Drop this frame and try again on the next one.
    SkipFrame,
    /// Configure the surface again at its current size, then go on.
    Reconfigure,
    /// The error is fatal.
    Exit,
}

/// The host-side state of the renderer that decides what is drawn: the
/// surface size and whether it is configured, the sample count, the
/// overlay switch, and the keys held down.
#[derive(Clone, Copy, Debug, PartialEq, Eq, Structural)]
pub struct State {
    pub width: u32,
    pub height: u32,
    pub is_surface_configured: bool,
    pub sample_count: u32,
    pub debug_overlay: bool,
    pub is_space_pressed: bool,
    pub camera_controller: CameraController,
}

impl State {
    /// A configured surface always has a non-empty size.
    pub open spec fn wf(&self) -> bool {
        &&& self.sample_count >= 1
        &&& self.is_surface_configured ==> self.width > 0 && self.height > 0
    }

    /// A renderer for a window of `width` by `height` pixels, not yet
    /// configured: it draws nothing until its first non-empty resize.
    pub fn new(width: u32, height: u32) -> (r: State)
        ensures
            r.wf(),
            r.width == width,
            r.height == height,
            !r.is_surface_configured,
            r.sample_count == SAMPLE_COUNT,
            r.debug_overlay,
            !r.is_space_pressed,
            r.camera_controller == CameraController::new_spec(),
    {
        State {
            width,
            height,
            is_surface_configured: false,
            sample_count: SAMPLE_COUNT,
            debug_overlay: true,
            is_space_pressed: false,
            camera_controller: CameraController::new(),
        }
    }

    /// Takes a new surface size. A size with a zero dimension (a minimised
    /// window) is ignored and leaves the state as it was; any other size is
    /// taken and marks the surface configured. Returns whether the surface
    /// and its size-dependent attachments must be recreated.
    pub fn resize(&mut self, width: u32, height: u32) -> (reconfigured: bool)
        requires
            old(self).wf(),
        ensures
            final(self).wf(),
            reconfigured == (width > 0 && height > 0),
            reconfigured ==> *final(self) == (State {
                width,
                height,
                is_surface_configured: true,
                ..*old(self)
            }),
            !reconfigured ==> *final(self) == *old(self),
    {
        if width > 0 && height > 0 {
            self.width = width;
            self.height = height;
            self.is_surface_configured = true;
            true
        } else {
            false
        }
    }

    /// The passes to record for the next frame, or `None` while the surface
    /// is not configured: there is no valid target yet, and the frame is a
    /// no-op rather than an error.
    pub fn render(&self) -> (r: Option<Vec<PassPlan>>)
        ensures
            match r {
                Some(passes) => self.is_surface_configured && passes@ == frame_plan(self.debug_overlay),
                None => !self.is_surface_configured,
            },
    {
        if self.is_surface_configured {
            Some(frame_passes(self.debug_overlay))
        } else {
            None
        }
    }

    /// Records a key press or release. Space selects the alternate texture
    /// while held, the movement keys go to the camera controller, and the
    /// result is whether the key asks to quit (Escape pressed).
    pub fn handle_key(&mut self, code: KeyCode, is_pressed: bool) -> (quit: bool)
        ensures
            quit == (code == KeyCode::Escape && is_pressed),
            final(self).is_space_pressed == if code == KeyCode::Space {
                is_pressed
            } else {
                old(self).is_space_pressed
            },
            final(self).camera_controller == old(self).camera_controller.with_key(code, is_pressed),
            final(self).width == old(self).width,
            final(self).height == old(self).height,
            final(self).is_surface_configured == old(self).is_surface_configured,
            final(self).sample_count == old(self).sample_count,
            final(self).debug_overlay == old(self).debug_overlay,
    {
        match code {
            KeyCode::Space => {
                self.is_space_pressed = is_pressed;
                false
            },
            KeyCode::Escape => is_pressed,
            _ => {
                self.camera_controller.handle_key(code, is_pressed);
                false
            },
        }
    }

    /// The texture the opaque scene uses: the alternate one while Space is held.
    pub fn texture_choice(&self) -> (r: TextureChoice)
        ensures
            r == (if self.is_space_pressed { TextureChoice::Alternate } else { TextureChoice::Diffuse }),
    {
        if self.is_space_pressed {
            TextureChoice::Alternate
        } else {
            TextureChoice::Diffuse
        }
    }

    /// Whether colour is drawn into a multisampled target that resolves into
    /// the surface, rather than into the surface directly.
    pub fn uses_multisampled_target(&self) -> (r: bool)
        ensures
            r == (self.sample_count > 1),
    {
        self.sample_count > 1
    }

    /// The five pipelines, one per stage, all built for the sample count of
    /// the shared depth/stencil attachment.
    pub fn pipeline_set(&self) -> (r: Vec<Pipeline>)
        ensures
            r@.len() == all_stages().len(),
            forall|i: int| 0 <= i < r@.len() ==> (#[trigger] r@[i]).describes(all_stages()[i], self.sample_count),
    {
        let mut r: Vec<Pipeline> = Vec::new();
        r.push(Pipeline::mask_render_pipeline(self.sample_count));
        r.push(Pipeline::debug_render_pipeline(self.sample_count));
        r.push(Pipeline::reflection_render_pipeline(self.sample_count));
        r.push(Pipeline::build_render_pipeline(self.sample_count));
        r.push(Pipeline::mirror_surface_render_pipeline(self.sample_count));
        r
    }

    /// The depth/stencil attachment that matches the current surface size
    /// and sample count.
    pub fn depth_stencil(&self) -> (r: StencilTexture)
        ensures
            r.width == at_least_one(self.width),
            r.height == at_least_one(self.height),
            r.sample_count == self.sample_count,
    {
        StencilTexture::create_stencil_texture(self.width, self.height, self.sample_count)
    }
}

/// How a failed surface acquisition is handled: a lost or outdated surface
/// is configured again, running out of memory is fatal, and anything else
/// (a timeout) skips the frame.
pub fn surface_error_action(e: SurfaceErrorKind) -> (r: FrameRecovery)
    ensures
        r == match e {
            SurfaceErrorKind::Lost | SurfaceErrorKind::Outdated => FrameRecovery::Reconfigure,
            SurfaceErrorKind::OutOfMemory => FrameRecovery::Exit,
            _ => FrameRecovery::SkipFrame,
        },
{
    match e {
        SurfaceErrorKind::Lost | SurfaceErrorKind::Outdated => FrameRecovery::Reconfigure,
        SurfaceErrorKind::OutOfMemory => FrameRecovery::Exit,
        _ => FrameRecovery::SkipFrame,
    }
}

} // verus!
