use vstd::prelude::*;

use crate::input::{Key, KeyState, WindowEvent};
use crate::model::{GeometryBuffer, Model};
use crate::pipeline::PipelineVariant;

verus! {

/// Where the renderer stands between frames.
#[derive(Clone, Copy, Debug, PartialEq, Eq, Structural)]
pub enum Phase {
    /// No surface has been configured yet.
    Uninitialized,
    /// The surface and the depth target match; a frame may start.
    Ready,
    /// A frame was started and its outcome is not known yet.
    Rendering,
    /// The surface was lost and must be configured again before a frame.
    Resizing,
    /// The renderer has shut down; no GPU work may follow.
    Terminated,
}

/// A size in physical pixels.
#[derive(Clone, Copy, Debug, PartialEq, Eq, Structural)]
pub struct Extent {
    pub width: u32,
    pub height: u32,
}

/// What the caller must do after a resize request.
#[derive(Clone, Copy, Debug, PartialEq, Eq, Structural)]
pub enum ResizeAction {
    /// Nothing: the surface stays as it was.
    Ignore,
    /// Configure the surface at this size and rebuild the depth target to it.
    Reconfigure(Extent),
}

/// How acquiring and presenting a frame went.
#[derive(Clone, Copy, Debug, PartialEq, Eq, Structural)]
pub enum FrameOutcome {
    Presented,
    /// The surface was lost.
    Lost,
    /// The surface no longer matches the window.
    Outdated,
    /// No frame became available in time.
    Timeout,
    /// The GPU ran out of memory.
    OutOfMemory,
}

/// What the caller must do once a frame has ended.
#[derive(Clone, Copy, Debug, PartialEq, Eq, Structural)]
pub enum FrameAction {
    /// The frame is on screen; go on.
    Continue,
    /// Configure the surface again, through `resize` at this size, then retry.
    Reconfigure(Extent),
    /// Nothing this frame; the next one is tried as usual.
    Skip,
    /// Stop: no further GPU call may be made.
    Exit,
}

/// What the caller must do with a window event that `input` did not take.
#[derive(Clone, Copy, Debug, PartialEq, Eq, Structural)]
pub enum EventAction {
    Ignore,
    Reconfigure(Extent),
    Exit,
}

/// One frame's work: a single pass that clears color and depth, binds the
/// pipeline, the material and camera bind groups, the model's vertex and
/// index buffers and the instance buffer, and draws every index of the model
/// for every instance.
#[derive(Clone, Copy, Debug, PartialEq, Eq, Structural)]
pub struct FramePlan {
    pub pipeline: PipelineVariant,
    /// The size of the depth target, which is the surface's size.
    pub target: Extent,
    pub index_count: u32,
    pub instance_count: usize,
}

/// The pipeline chosen by the toggle: `Instanced` while it is on, `Basic`
/// while it is off.
pub open spec fn pipeline_for(toggle: bool) -> PipelineVariant {
    if toggle {
        PipelineVariant::Instanced
    } else {
        PipelineVariant::Basic
    }
}

/// Which of the surface's supported formats to configure it with, given for
/// each whether it is sRGB: the first sRGB one, else the first one. `None`
/// when the surface supports no format at all.
pub fn pick_surface_format(is_srgb: &[bool]) -> (r: Option<usize>)
    ensures
        is_srgb@.len() == 0 <==> r is None,
        r matches Some(i) ==> i < is_srgb@.len(),
        r matches Some(i) ==> is_srgb@[i as int] ==> forall|j: int| 0 <= j < i ==> !is_srgb@[j],
        r matches Some(i) ==> !is_srgb@[i as int] ==> i == 0 && forall|j: int|
            0 <= j < is_srgb@.len() ==> !is_srgb@[j],
{
    let mut k: usize = 0;
    while k < is_srgb.len()
        invariant
            k <= is_srgb@.len(),
            forall|j: int| 0 <= j < k ==> !is_srgb@[j],
        decreases is_srgb@.len() - k,
    {
        if is_srgb[k] {
            return Some(k);
        }
        k = k + 1;
    }
    if is_srgb.len() == 0 {
        None
    } else {
        Some(0)
    }
}

/// The renderer's frame-to-frame state: its phase, the configured surface
/// size, the size of the depth target, and the pipeline toggle.
pub struct RenderState {
    phase: Phase,
    surface: Extent,
    depth: Extent,
    toggle_pipeline: bool,
}

impl RenderState {
    pub closed spec fn spec_phase(&self) -> Phase {
        self.phase
    }

    pub closed spec fn spec_surface(&self) -> Extent {
        self.surface
    }

    pub closed spec fn spec_depth(&self) -> Extent {
        self.depth
    }

    pub closed spec fn spec_toggle(&self) -> bool {
        self.toggle_pipeline
    }

    /// The depth target always has the surface's size.
    pub open spec fn wf(&self) -> bool {
        self.spec_depth() == self.spec_surface()
    }

    /// A renderer before its surface is configured, with the toggle on.
    pub fn new() -> (r: Self)
        ensures
            r.wf(),
            r.spec_phase() == Phase::Uninitialized,
            r.spec_toggle(),
    {
        let none = Extent { width: 0, height: 0 };
        RenderState { phase: Phase::Uninitialized, surface: none, depth: none, toggle_pipeline: true }
    }

    /// Records that the surface and depth target were configured at the
    /// window's size `width` x `height`.
    pub fn initialize(&mut self, width: u32, height: u32)
        requires
            old(self).wf(),
            old(self).spec_phase() == Phase::Uninitialized,
        ensures
            final(self).wf(),
            final(self).spec_phase() == Phase::Ready,
            final(self).spec_surface() == (Extent { width, height }),
            final(self).spec_toggle() == old(self).spec_toggle(),
    {
        let size = Extent { width, height };
        self.surface = size;
        self.depth = size;
        self.phase = Phase::Ready;
    }

    pub fn phase(&self) -> (r: Phase)
        ensures
            r == self.spec_phase(),
    {
        self.phase
    }

    /// The size the surface is configured at.
    pub fn surface_size(&self) -> (r: Extent)
        ensures
            r == self.spec_surface(),
    {
        self.surface
    }

    /// The size of the depth target.
    pub fn depth_size(&self) -> (r: Extent)
        ensures
            r == self.spec_depth(),
    {
        self.depth
    }

    /// The pipeline the next frame will use.
    pub fn active_pipeline(&self) -> (r: PipelineVariant)
        ensures
            r == pipeline_for(self.spec_toggle()),
    {
        if self.toggle_pipeline {
            PipelineVariant::Instanced
        } else {
            PipelineVariant::Basic
        }
    }

    /// Asks for the surface to be `width` x `height`. A size with a zero side
    /// changes nothing; so does a request while the renderer is not between
    /// frames. Otherwise the surface and the depth target take the new size
    /// and a lost surface counts as configured again.
    pub fn resize(&mut self, width: u32, height: u32) -> (r: ResizeAction)
        requires
            old(self).wf(),
        ensures
            final(self).wf(),
            (width == 0 || height == 0) ==> r == ResizeAction::Ignore && *final(self) == *old(self),
            !(old(self).spec_phase() is Ready || old(self).spec_phase() is Resizing) ==> r
                == ResizeAction::Ignore && *final(self) == *old(self),
            (width > 0 && height > 0 && (old(self).spec_phase() is Ready
                || old(self).spec_phase() is Resizing)) ==> {
                &&& r == ResizeAction::Reconfigure(Extent { width, height })
                &&& final(self).spec_surface() == (Extent { width, height })
                &&& final(self).spec_phase() == Phase::Ready
                &&& final(self).spec_toggle() == old(self).spec_toggle()
            },
    {
        if width == 0 || height == 0 {
            return ResizeAction::Ignore;
        }
        match self.phase {
            Phase::Ready | Phase::Resizing => {
                let size = Extent { width, height };
                self.surface = size;
                self.depth = size;
                self.phase = Phase::Ready;
                ResizeAction::Reconfigure(size)
            },
            _ => ResizeAction::Ignore,
        }
    }

    /// Takes the pipeline toggle key: the toggle is on while Space is down
    /// and off once it comes up. Returns whether the event was that key.
    /// The toggle is read when a frame starts, never during one.
    pub fn input(&mut self, event: &WindowEvent) -> (r: bool)
        requires
            old(self).wf(),
        ensures
            final(self).wf(),
            final(self).spec_phase() == old(self).spec_phase(),
            final(self).spec_surface() == old(self).spec_surface(),
            final(self).spec_depth() == old(self).spec_depth(),
            r == (*event matches WindowEvent::Keyboard { key: Key::Space, .. }),
            match *event {
                WindowEvent::Keyboard { key: Key::Space, state } => final(self).spec_toggle() == (
                state == KeyState::Pressed),
                _ => final(self).spec_toggle() == old(self).spec_toggle(),
            },
    {
        match event {
            WindowEvent::Keyboard { key: Key::Space, state } => {
                self.toggle_pipeline = match state {
                    KeyState::Pressed => true,
                    KeyState::Released => false,
                };
                true
            },
            _ => false,
        }
    }

    /// Handles a window event that `input` did not take: a new size is a
    /// resize request, and closing the window or pressing Escape shuts the
    /// renderer down.
    pub fn window_event(&mut self, event: &WindowEvent) -> (r: EventAction)
        requires
            old(self).wf(),
        ensures
            final(self).wf(),
            match *event {
                WindowEvent::Resized { width, height } | WindowEvent::ScaleFactorChanged {
                    width,
                    height,
                } => if width > 0 && height > 0 && (old(self).spec_phase() is Ready
                    || old(self).spec_phase() is Resizing) {
                    &&& r == EventAction::Reconfigure(Extent { width, height })
                    &&& final(self).spec_surface() == (Extent { width, height })
                    &&& final(self).spec_phase() == Phase::Ready
                    &&& final(self).spec_toggle() == old(self).spec_toggle()
                } else {
                    r == EventAction::Ignore && *final(self) == *old(self)
                },
                WindowEvent::CloseRequested | WindowEvent::Keyboard {
                    key: Key::Escape,
                    state: KeyState::Pressed,
                } => r == EventAction::Exit && final(self).spec_phase() == Phase::Terminated,
                _ => r == EventAction::Ignore && *final(self) == *old(self),
            },
    {
        match event {
            WindowEvent::Resized { width, height } | WindowEvent::ScaleFactorChanged {
                width,
                height,
            } => match self.resize(*width, *height) {
                ResizeAction::Ignore => EventAction::Ignore,
                ResizeAction::Reconfigure(e) => EventAction::Reconfigure(e),
            },
            WindowEvent::CloseRequested | WindowEvent::Keyboard {
                key: Key::Escape,
                state: KeyState::Pressed,
            } => {
                self.phase = Phase::Terminated;
                EventAction::Exit
            },
            _ => EventAction::Ignore,
        }
    }

    /// Starts a frame when the renderer is ready: fixes the pipeline from the
    /// toggle as it stands now and the target size, and covers every index
    /// of `model` for every element of `instances`. Otherwise returns `None`
    /// and changes nothing.
    pub fn begin_frame<H>(&mut self, model: &Model<H>, instances: &GeometryBuffer<H>) -> (r: Option<
        FramePlan,
    >)
        requires
            old(self).wf(),
        ensures
            final(self).wf(),
            old(self).spec_phase() == Phase::Ready ==> {
                &&& r == Some(
                    FramePlan {
                        pipeline: pipeline_for(old(self).spec_toggle()),
                        target: old(self).spec_depth(),
                        index_count: model.spec_num_indices(),
                        instance_count: instances.count() as usize,
                    },
                )
                &&& final(self).spec_phase() == Phase::Rendering
                &&& final(self).spec_surface() == old(self).spec_surface()
                &&& final(self).spec_toggle() == old(self).spec_toggle()
            },
            old(self).spec_phase() != Phase::Ready ==> r is None && *final(self) == *old(self),
    {
        match self.phase {
            Phase::Ready => {
                self.phase = Phase::Rendering;
                Some(
                    FramePlan {
                        pipeline: self.active_pipeline(),
                        target: self.depth,
                        index_count: model.num_indices(),
                        instance_count: instances.len(),
                    },
                )
            },
            _ => None,
        }
    }

    /// Ends the frame with what acquiring and presenting it gave. A lost
    /// surface must be configured again at its size before the next frame;
    /// running out of memory shuts the renderer down; an outdated surface or
    /// a timeout skips this frame only.
    pub fn end_frame(&mut self, outcome: FrameOutcome) -> (r: FrameAction)
        requires
            old(self).wf(),
            old(self).spec_phase() == Phase::Rendering,
        ensures
            final(self).wf(),
            final(self).spec_surface() == old(self).spec_surface(),
            final(self).spec_toggle() == old(self).spec_toggle(),
            match outcome {
                FrameOutcome::Presented => r == FrameAction::Continue && final(self).spec_phase()
                    == Phase::Ready,
                FrameOutcome::Lost => r == FrameAction::Reconfigure(old(self).spec_surface())
                    && final(self).spec_phase() == Phase::Resizing,
                FrameOutcome::Outdated | FrameOutcome::Timeout => r == FrameAction::Skip
                    && final(self).spec_phase() == Phase::Ready,
                FrameOutcome::OutOfMemory => r == FrameAction::Exit && final(self).spec_phase()
                    == Phase::Terminated,
            },
    {
        match outcome {
            FrameOutcome::Presented => {
                self.phase = Phase::Ready;
                FrameAction::Continue
            },
            FrameOutcome::Lost => {
                self.phase = Phase::Resizing;
                FrameAction::Reconfigure(self.surface)
            },
            FrameOutcome::Outdated | FrameOutcome::Timeout => {
                self.phase = Phase::Ready;
                FrameAction::Skip
            },
            FrameOutcome::OutOfMemory => {
                self.phase = Phase::Terminated;
                FrameAction::Exit
            },
        }
    }
}

} // verus!
