//! The viewer's event dispatch: one state struct, one function from state
//! and event to the action the shell must perform. The shell around the
//! library owns the window and the presentation surface; it translates
//! their notifications into `ViewerEvent`s and carries out the returned
//! `Action`s.

use vstd::prelude::*;
use crate::debounce::{Debouncer, spec_after_poll, spec_on_resize, spec_poll_fires};
use crate::img::SourceImage;
use crate::pipeline::{FrameBuffer, frame_shows, redraw};

verus! {

/// Share of the screen the window takes at startup, in percent.
pub const SCREEN_PERCENT: u32 = 90;

/// The keys the viewer reacts to: quit, redraw by hand, anything else.
#[derive(Debug, Clone, Copy, PartialEq, Eq, Structural)]
pub enum KeyPress {
    Quit,
    Redraw,
    Other,
}

/// One notification from the windowing layer. A tick is the cooperative
/// idle check on which the debounce deadline is observed.
#[derive(Debug, Clone, Copy, PartialEq, Eq, Structural)]
pub enum ViewerEvent {
    Resized,
    CloseRequested,
    KeyPressed(KeyPress),
    Tick,
}

/// What the shell must do after an event: nothing, leave the event loop,
/// or resize its surface to the frame buffer and present it.
#[derive(Debug, Clone, Copy, PartialEq, Eq, Structural)]
pub enum Action {
    Continue,
    Exit,
    Present,
}

/// Everything mutable the viewer owns: the frame buffer, the resize
/// debouncer, and the up-scale policy it was configured with.
pub struct ViewerState {
    pub frame: FrameBuffer,
    pub debouncer: Debouncer,
    pub up_scale: bool,
}

impl ViewerState {
    /// A fresh viewer: empty frame, idle debouncer, the given policy.
    pub fn new(quiescence_ms: u64, up_scale: bool) -> (r: ViewerState)
        ensures
            r.frame.wf(),
            !r.debouncer.pending,
            r.debouncer.quiescence_ms == quiescence_ms,
            r.up_scale == up_scale,
    {
        ViewerState {
            frame: FrameBuffer::new(),
            debouncer: Debouncer::new(quiescence_ms),
            up_scale,
        }
    }
}

/// Dispatch one event. Close or the quit key asks the shell to leave the
/// loop; a resize only restarts the debounce timer; the redraw key redraws
/// at once; a tick redraws exactly when the debouncer fires. Whenever the
/// answer is `Present`, the frame buffer shows the source resampled for
/// the viewport as it is now, not as it was when the burst began.
pub fn on_event(
    state: &mut ViewerState,
    source: &SourceImage,
    viewport: (u32, u32),
    now_ms: u64,
    event: ViewerEvent,
) -> (action: Action)
    requires
        source.wf(),
        viewport.0 >= 1,
        viewport.1 >= 1,
        viewport.0 * viewport.1 * 32 <= usize::MAX,
        source.width * viewport.1 * 32 <= usize::MAX,
        now_ms + old(state).debouncer.quiescence_ms <= u64::MAX,
    ensures
        final(state).up_scale == old(state).up_scale,
        match event {
            ViewerEvent::CloseRequested => {
                &&& action == Action::Exit
                &&& *final(state) == *old(state)
            },
            ViewerEvent::KeyPressed(k) => match k {
                KeyPress::Quit => {
                    &&& action == Action::Exit
                    &&& *final(state) == *old(state)
                },
                KeyPress::Redraw => {
                    &&& action == Action::Present
                    &&& final(state).debouncer == old(state).debouncer
                    &&& final(state).frame.wf()
                    &&& frame_shows(final(state).frame, *source, viewport, old(state).up_scale)
                },
                KeyPress::Other => {
                    &&& action == Action::Continue
                    &&& *final(state) == *old(state)
                },
            },
            ViewerEvent::Resized => {
                &&& action == Action::Continue
                &&& final(state).frame == old(state).frame
                &&& final(state).debouncer == spec_on_resize(old(state).debouncer, now_ms)
            },
            ViewerEvent::Tick => {
                &&& final(state).debouncer == spec_after_poll(old(state).debouncer, now_ms)
                &&& if spec_poll_fires(old(state).debouncer, now_ms) {
                    &&& action == Action::Present
                    &&& final(state).frame.wf()
                    &&& frame_shows(final(state).frame, *source, viewport, old(state).up_scale)
                } else {
                    &&& action == Action::Continue
                    &&& *final(state) == *old(state)
                }
            },
        },
{
    match event {
        ViewerEvent::CloseRequested => Action::Exit,
        ViewerEvent::KeyPressed(k) => match k {
            KeyPress::Quit => Action::Exit,
            KeyPress::Redraw => {
                redraw(&mut state.frame, source, viewport, state.up_scale);
                Action::Present
            },
            KeyPress::Other => Action::Continue,
        },
        ViewerEvent::Resized => {
            state.debouncer.on_resize(now_ms);
            Action::Continue
        },
        ViewerEvent::Tick => {
            let fired = state.debouncer.poll(now_ms);
            if fired {
                redraw(&mut state.frame, source, viewport, state.up_scale);
                Action::Present
            } else {
                Action::Continue
            }
        },
    }
}

/// The viewport to fall back to when the windowing layer reports no
/// display: the detected size when there is one, else the configured
/// default.
pub fn viewport_or_default(detected: Option<(u32, u32)>, fallback: (u32, u32)) -> (r: (u32, u32))
    ensures
        r == match detected {
            Some(d) => d,
            None => fallback,
        },
{
    match detected {
        Some(d) => d,
        None => fallback,
    }
}

/// The part of the screen the window may take at startup: each screen
/// dimension scaled by the given percentage, rounded down.
pub fn initial_viewport(screen: (u32, u32), percent: u32) -> (r: (u32, u32))
    requires
        1 <= percent <= 100,
    ensures
        r.0 == screen.0 * percent / 100,
        r.1 == screen.1 * percent / 100,
        r.0 <= screen.0,
        r.1 <= screen.1,
{
    proof {
        assert(screen.0 * percent / 100 <= screen.0 && screen.1 * percent / 100 <= screen.1)
            by (nonlinear_arith)
            requires 1 <= percent <= 100;
    }
    let w = ((screen.0 as u64) * (percent as u64) / 100) as u32;
    let h = ((screen.1 as u64) * (percent as u64) / 100) as u32;
    (w, h)
}

} // verus!
