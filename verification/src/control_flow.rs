use vstd::prelude::*;
use crate::events::{Action, Event, RedrawTarget};
use crate::state::{FrameStep, GraphicsError, State, WindowHandle, frame_steps};

verus! {

/// The frame delta: elapsed milliseconds since the previous frame, never
/// negative even if the clock reads the same instant twice.
pub open spec fn frame_delta(now: u64, last_render: u64) -> u64 {
    if now >= last_render {
        (now - last_render) as u64
    } else {
        0
    }
}

/// Process-wide orchestration state. The lifecycle runs `uninitialized`
/// (neither window nor context) to `windowed` (window waiting for the first
/// sizing signal) to `rendering` (window consumed, context live for the rest
/// of the process).
#[derive(Clone, Copy, PartialEq, Eq, Structural, Debug)]
pub struct ControlFlow {
    /// Present only before the graphics context is created; consumed
    /// exactly once, at context creation.
    pub window: Option<WindowHandle>,
    /// Absent until first creation, then present from then on.
    pub state: Option<State>,
    /// Timestamp of the previous frame render, in milliseconds.
    pub last_render: u64,
}

impl ControlFlow {
    /// The loop invariant: the window handle and the context never coexist
    /// (the window is consumed to make the context), and a live context
    /// satisfies its own invariant.
    pub open spec fn wf(self) -> bool {
        &&& !(self.window is Some && self.state is Some)
        &&& (self.state matches Some(s) ==> s.wf())
    }

    /// The inputs on which a window event is defined: a sizing event can
    /// only arrive once a window exists, and a scale factor is a valid
    /// rational.
    pub open spec fn event_allowed(self, event: Event) -> bool {
        &&& (self.state is None && event matches Event::Resized(_)) ==> self.window is Some
        &&& (event matches Event::ScaleFactorChanged(f) ==> f.wf())
    }

    /// The transition function of the run loop: from the current state and
    /// one event to the next state and the action the shell must perform.
    pub open spec fn step(self, event: Event, now: u64) -> (ControlFlow, Action) {
        match self.state {
            Some(s) => match event {
                Event::CloseRequested => (self, Action::Exit),
                Event::Resized(sz) => {
                    let s2 = s.resized(sz);
                    (
                        ControlFlow { state: Some(s2), ..self },
                        if sz.is_zero_area() {
                            Action::Nothing
                        } else {
                            Action::ConfigureSurface(s2.config)
                        },
                    )
                },
                Event::ScaleFactorChanged(f) => {
                    let target = s.size.scaled(f);
                    let s2 = s.resized(target);
                    (
                        ControlFlow { state: Some(s2), ..self },
                        if target.is_zero_area() {
                            Action::Nothing
                        } else {
                            Action::ConfigureSurface(s2.config)
                        },
                    )
                },
                Event::RedrawRequested => (
                    ControlFlow { last_render: now, ..self },
                    Action::Render { dt: frame_delta(now, self.last_render) },
                ),
                Event::Other => (self, Action::Nothing),
            },
            None => match event {
                Event::Resized(_) => (
                    ControlFlow { window: None, ..self },
                    Action::CreateContext(self.window->Some_0),
                ),
                _ => (self, Action::Nothing),
            },
        }
    }

    /// A fresh loop: no window, no context, the frame clock read once.
    pub fn new(now: u64) -> (cf: ControlFlow)
        ensures
            cf == (ControlFlow { window: None, state: None, last_render: now }),
            cf.wf(),
    {
        ControlFlow { window: None, state: None, last_render: now }
    }

    /// The environment's resume signal: the shell has created the window
    /// and hands its handle over.
    pub fn resumed(&mut self, window: WindowHandle)
        ensures
            *final(self) == (ControlFlow { window: Some(window), ..*old(self) }),
    {
        self.window = Some(window);
    }

    /// Which handle an idle-tick redraw request goes to: the bare window
    /// while it exists, else the context's tracked window.
    pub open spec fn redraw_target(self) -> Option<RedrawTarget> {
        if self.window is Some {
            Some(RedrawTarget::Window)
        } else if self.state is Some {
            Some(RedrawTarget::ContextWindow)
        } else {
            None
        }
    }

    /// The idle tick: requests a redraw on whichever handle currently
    /// exists.
    pub fn about_to_wait(&self) -> (target: Option<RedrawTarget>)
        ensures
            target == self.redraw_target(),
    {
        if self.window.is_some() {
            Some(RedrawTarget::Window)
        } else if self.state.is_some() {
            Some(RedrawTarget::ContextWindow)
        } else {
            None
        }
    }

    /// Handles one window event and returns the action the shell must
    /// perform, exactly as `step` says. Once the context exists, its event
    /// hook is offered the event first; resize and scale requests are
    /// applied to the context, a redraw advances the frame clock and asks
    /// for a frame. Before the context exists, the first sizing event
    /// consumes the window and asks for context creation.
    pub fn window_event(&mut self, event: Event, now: u64) -> (action: Action)
        requires
            old(self).wf(),
            old(self).event_allowed(event),
        ensures
            *final(self) == old(self).step(event, now).0,
            action == old(self).step(event, now).1,
            final(self).wf(),
    {
        match self.state {
            Some(s0) => {
                let mut s = s0;
                let handled = s.event(&event);
                if handled {
                    // The hook suppressed default handling for this event.
                    self.state = Some(s);
                    Action::Nothing
                } else {
                    match event {
                        Event::CloseRequested => {
                            self.state = Some(s);
                            Action::Exit
                        },
                        Event::Resized(sz) => {
                            let reconfigure = s.resize(sz);
                            let config = s.config;
                            self.state = Some(s);
                            if reconfigure {
                                Action::ConfigureSurface(config)
                            } else {
                                Action::Nothing
                            }
                        },
                        Event::ScaleFactorChanged(f) => {
                            let reconfigure = s.scale(f);
                            let config = s.config;
                            self.state = Some(s);
                            if reconfigure {
                                Action::ConfigureSurface(config)
                            } else {
                                Action::Nothing
                            }
                        },
                        Event::RedrawRequested => {
                            let dt: u64 = if now >= self.last_render {
                                now - self.last_render
                            } else {
                                0
                            };
                            self.last_render = now;
                            s.update(dt);
                            self.state = Some(s);
                            Action::Render { dt }
                        },
                        Event::Other => {
                            self.state = Some(s);
                            Action::Nothing
                        },
                    }
                }
            },
            None => match event {
                Event::Resized(_) => {
                    let w = self.window.unwrap();
                    self.window = None;
                    Action::CreateContext(w)
                },
                _ => Action::Nothing,
            },
        }
    }

    /// Installs the context the shell has just constructed from the consumed
    /// window. Called exactly once, right after a `CreateContext` action;
    /// from then on the context is present for the rest of the process.
    pub fn install_state(&mut self, s: State)
        requires
            old(self).window is None,
            old(self).state is None,
            s.wf(),
        ensures
            *final(self) == (ControlFlow { state: Some(s), ..*old(self) }),
            final(self).wf(),
    {
        self.state = Some(s);
    }

    /// Renders one frame through the installed context, given whether the
    /// shell could acquire a presentable texture.
    pub fn render_frame(&mut self, acquired: bool) -> (r: Result<Vec<FrameStep>, GraphicsError>)
        requires
            old(self).state is Some,
        ensures
            *final(self) == *old(self),
            !acquired ==> r == Err::<Vec<FrameStep>, GraphicsError>(
                GraphicsError::SurfaceAcquisitionFailed,
            ),
            acquired ==> (r matches Ok(plan) && plan@ == frame_steps()),
    {
        match &mut self.state {
            Some(s) => s.render(acquired),
            None => Err(GraphicsError::SurfaceAcquisitionFailed),
        }
    }
}

/// The ordering invariant of the whole loop: no step asks the shell to
/// reconfigure or render before the context exists; the window is consumed
/// exactly at context creation, and only from a state that still holds it;
/// the loop invariant survives every step; and once the context exists, an
/// idle-tick redraw goes through the context's tracked window, never the
/// bare window handle.
pub proof fn lemma_step_respects_lifecycle(cf: ControlFlow, event: Event, now: u64)
    requires
        cf.wf(),
        cf.event_allowed(event),
    ensures
        cf.step(event, now).1 matches Action::ConfigureSurface(_) ==> cf.state is Some,
        cf.step(event, now).1 matches Action::Render { .. } ==> cf.state is Some,
        cf.step(event, now).1 matches Action::CreateContext(w) ==> cf.state is None
            && cf.window == Some(w),
        cf.step(event, now).0.wf(),
        cf.state is Some ==> cf.step(event, now).0.state is Some,
        cf.state is Some ==> cf.redraw_target() == Some(RedrawTarget::ContextWindow),
        cf.state is None && cf.window is Some ==> cf.redraw_target() == Some(RedrawTarget::Window),
{
}

} // verus!
