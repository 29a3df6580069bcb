//! The drawing surface's lifecycle: when it exists, when drawing is held
//! back, and what a change of the window's size asks for.

use crate::options::{PresentMode, SampleCount};
use vstd::prelude::*;

verus! {

/// What is remembered of the surface as it was last configured.
#[derive(Clone, Copy, Debug, PartialEq, Eq, Structural)]
pub struct StoredSurfaceInfo {
    /// Width in pixels.
    pub width: u32,
    /// Height in pixels.
    pub height: u32,
    /// Samples per pixel.
    pub sample_count: SampleCount,
    /// How frames are presented.
    pub present_mode: PresentMode,
}

/// The surface's lifecycle state.
#[derive(Clone, Copy, Debug, PartialEq, Eq, Structural)]
pub struct SurfaceLifecycle {
    /// Whether a surface exists.
    pub has_surface: bool,
    /// Whether the application is suspended, so that nothing is drawn.
    pub suspended: bool,
    /// The surface as last configured.
    pub info: StoredSurfaceInfo,
}

/// What the windowing system reports about the surface.
#[derive(Clone, Copy, Debug, PartialEq, Eq, Structural)]
pub enum SurfaceEvent {
    /// The application may draw again.
    Resumed,
    /// The application must stop drawing and give up its surface.
    Suspended,
    /// The window has a new size, in pixels.
    Resized { width: u32, height: u32 },
    /// Anything else.
    Other,
}

/// What the caller is to do with the surface.
#[derive(Clone, Copy, Debug, PartialEq, Eq, Structural)]
pub enum SurfaceAction {
    /// Nothing.
    Keep,
    /// Create the surface.
    Create,
    /// Give up the surface.
    Discard,
    /// Tell the overlay renderer the new size, and leave the surface alone:
    /// the window has no area.
    ResizeOverlay { width: u32, height: u32 },
    /// Tell the overlay renderer the new size, then configure the surface
    /// for it and give the renderer the new aspect ratio.
    Reconfigure { width: u32, height: u32 },
}

/// The answer to a surface event.
#[derive(Clone, Copy, Debug, PartialEq, Eq, Structural)]
pub struct SurfaceStep {
    /// Whether the application is suspended from now on, where the event
    /// settles that.
    pub suspend: Option<bool>,
    /// What to do with the surface.
    pub action: SurfaceAction,
}

/// The lifecycle after `event`, where the viewer's options ask for
/// `sample_count` and `present_mode`.
pub open spec fn lifecycle_after(
    state: SurfaceLifecycle,
    event: SurfaceEvent,
    sample_count: SampleCount,
    present_mode: PresentMode,
) -> SurfaceLifecycle {
    match event {
        SurfaceEvent::Resumed => SurfaceLifecycle { has_surface: true, suspended: false, ..state },
        SurfaceEvent::Suspended => SurfaceLifecycle {
            has_surface: false,
            suspended: true,
            ..state
        },
        SurfaceEvent::Resized { width, height } => if width == 0 || height == 0 {
            SurfaceLifecycle { suspended: false, ..state }
        } else {
            SurfaceLifecycle {
                suspended: false,
                info: StoredSurfaceInfo { width, height, sample_count, present_mode },
                ..state
            }
        },
        SurfaceEvent::Other => state,
    }
}

/// The answer to `event` in `state`.
pub open spec fn surface_step(state: SurfaceLifecycle, event: SurfaceEvent) -> SurfaceStep {
    match event {
        SurfaceEvent::Resumed => SurfaceStep {
            suspend: Some(false),
            action: if state.has_surface {
                SurfaceAction::Keep
            } else {
                SurfaceAction::Create
            },
        },
        SurfaceEvent::Suspended => SurfaceStep { suspend: Some(true), action: SurfaceAction::Discard },
        SurfaceEvent::Resized { width, height } => SurfaceStep {
            suspend: Some(false),
            action: if width == 0 || height == 0 {
                SurfaceAction::ResizeOverlay { width, height }
            } else {
                SurfaceAction::Reconfigure { width, height }
            },
        },
        SurfaceEvent::Other => SurfaceStep { suspend: None, action: SurfaceAction::Keep },
    }
}

/// Takes a surface event: updates the lifecycle and says what to do with the
/// surface. A window without area is never configured.
pub fn handle_surface(
    state: &mut SurfaceLifecycle,
    event: SurfaceEvent,
    sample_count: SampleCount,
    present_mode: PresentMode,
) -> (step: SurfaceStep)
    ensures
        step == surface_step(*old(state), event),
        *final(state) == lifecycle_after(*old(state), event, sample_count, present_mode),
{
    match event {
        SurfaceEvent::Resumed => {
            let action = if state.has_surface {
                SurfaceAction::Keep
            } else {
                SurfaceAction::Create
            };
            state.has_surface = true;
            state.suspended = false;
            SurfaceStep { suspend: Some(false), action }
        },
        SurfaceEvent::Suspended => {
            state.has_surface = false;
            state.suspended = true;
            SurfaceStep { suspend: Some(true), action: SurfaceAction::Discard }
        },
        SurfaceEvent::Resized { width, height } => {
            state.suspended = false;
            if width == 0 || height == 0 {
                SurfaceStep {
                    suspend: Some(false),
                    action: SurfaceAction::ResizeOverlay { width, height },
                }
            } else {
                state.info = StoredSurfaceInfo { width, height, sample_count, present_mode };
                SurfaceStep {
                    suspend: Some(false),
                    action: SurfaceAction::Reconfigure { width, height },
                }
            }
        },
        SurfaceEvent::Other => SurfaceStep { suspend: None, action: SurfaceAction::Keep },
    }
}

/// Whether a redraw may go ahead: not while suspended.
pub fn may_draw(state: &SurfaceLifecycle) -> (draw: bool)
    ensures
        draw == !state.suspended,
{
    !state.suspended
}

} // verus!
