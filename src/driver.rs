//! The frame driver: turns the window's signals into operations on the
//! render state and into commands for the presentation backend. Once the
//! window is closed, no further signal has an effect.
use vstd::prelude::*;
use crate::state::{Recovery, RenderStep, State, StateView};
use crate::surface::{SurfaceConfig, SurfaceError};

verus! {

/// The keys the driver tells apart.
#[derive(Debug, Clone, Copy, PartialEq, Eq, Structural)]
pub enum Key {
    Escape,
    /// Toggles between indexed and direct drawing.
    V,
    Other,
}

/// A signal from the window.
#[derive(Debug, Clone, Copy, PartialEq, Eq, Structural)]
pub enum Signal {
    Resized { width: u32, height: u32 },
    RedrawRequested,
    CloseRequested,
    Key { key: Key, pressed: bool },
    Other,
}

/// What the presentation backend is asked to do after a signal.
#[derive(Debug, Clone, Copy, PartialEq, Eq, Structural)]
pub enum Command {
    Nothing,
    /// Configure the surface with this.
    Configure(SurfaceConfig),
    /// Request the next redraw, then take this step of the frame.
    Frame(RenderStep),
    /// Leave the event loop cleanly.
    Exit,
    /// Leave the event loop and report this failure.
    Fail(SurfaceError),
}

/// What a driver holds.
pub struct AppView {
    pub state: Option<StateView>,
    pub closed: bool,
}

impl AppView {
    pub open spec fn wf(self) -> bool {
        self.state matches Some(s) ==> s.wf()
    }

    /// The driver after `signal`, and the command it gives.
    pub open spec fn step(self, signal: Signal) -> (AppView, Command) {
        if self.closed {
            (self, Command::Nothing)
        } else {
            match self.state {
                None => (self, Command::Nothing),
                Some(s) => match signal {
                    Signal::CloseRequested | Signal::Key { key: Key::Escape, pressed: true } => (
                        AppView { closed: true, ..self },
                        Command::Exit,
                    ),
                    Signal::Resized { width, height } => (
                        AppView { state: Some(s.resized(width, height)), ..self },
                        if width == 0 || height == 0 {
                            Command::Nothing
                        } else {
                            Command::Configure(s.resized(width, height).surface.config)
                        },
                    ),
                    Signal::RedrawRequested => (self, Command::Frame(s.render_step())),
                    Signal::Key { key: Key::V, pressed: true } => (
                        AppView { state: Some(s.toggled()), ..self },
                        Command::Nothing,
                    ),
                    _ => (self, Command::Nothing),
                },
            }
        }
    }

    /// The driver after acquiring a frame failed with `e` while the window
    /// measured `width` x `height`, and the command it gives.
    pub open spec fn after_failure(self, e: SurfaceError, width: u32, height: u32) -> (
        AppView,
        Command,
    ) {
        if self.closed {
            (self, Command::Nothing)
        } else {
            match self.state {
                None => (self, Command::Nothing),
                Some(s) => {
                    let next = AppView { state: Some(s.recovered(e, width, height)), ..self };
                    match s.recovery(e, width, height) {
                        Recovery::Reconfigure(c) => (next, Command::Configure(c)),
                        Recovery::Wait => (next, Command::Nothing),
                        Recovery::Terminate(f) => (AppView { closed: true, ..next }, Command::Fail(f)),
                    }
                },
            }
        }
    }
}

/// The driver of one window: the render state once it exists, and whether
/// the window was closed.
pub struct App {
    state: Option<State>,
    closed: bool,
}

impl View for App {
    type V = AppView;

    closed spec fn view(&self) -> AppView {
        AppView {
            state: match self.state {
                Some(s) => Some(s@),
                None => None,
            },
            closed: self.closed,
        }
    }
}

impl App {
    pub open spec fn wf(&self) -> bool {
        self@.wf()
    }

    /// A driver with no render state yet, window open.
    pub fn new() -> (r: App)
        ensures
            r.wf(),
            r@.state is None,
            !r@.closed,
    {
        App { state: None, closed: false }
    }

    /// Hands the driver the render state once the backend has built it.
    pub fn attach(&mut self, state: State)
        requires
            state.wf(),
        ensures
            final(self).wf(),
            final(self)@.state == Some(state@),
            final(self)@.closed == old(self)@.closed,
    {
        self.state = Some(state);
    }

    pub fn state(&self) -> (r: Option<&State>)
        ensures
            r matches Some(s) ==> self@.state == Some(s@),
            r is None <==> self@.state is None,
    {
        match &self.state {
            Some(s) => Some(s),
            None => None,
        }
    }

    pub fn is_closed(&self) -> (r: bool)
        ensures
            r == self@.closed,
    {
        self.closed
    }

    /// Dispatches one signal of the window. Signals before the render state
    /// exists, or after the window closed, do nothing.
    pub fn window_event(&mut self, signal: Signal) -> (r: Command)
        requires
            old(self).wf(),
        ensures
            final(self).wf(),
            (final(self)@, r) == old(self)@.step(signal),
    {
        if self.closed {
            return Command::Nothing;
        }
        match &mut self.state {
            None => Command::Nothing,
            Some(s) => match signal {
                Signal::CloseRequested | Signal::Key { key: Key::Escape, pressed: true } => {
                    self.closed = true;
                    Command::Exit
                },
                Signal::Resized { width, height } => match s.resize(width, height) {
                    Some(config) => Command::Configure(config),
                    None => Command::Nothing,
                },
                Signal::RedrawRequested => Command::Frame(s.render()),
                Signal::Key { key: Key::V, pressed: true } => {
                    s.toggle_draw_mode();
                    Command::Nothing
                },
                _ => Command::Nothing,
            },
        }
    }

    /// Takes a failure to acquire the frame that the last redraw asked for,
    /// while the window measures `width` x `height`.
    pub fn frame_failed(&mut self, e: SurfaceError, width: u32, height: u32) -> (r: Command)
        requires
            old(self).wf(),
        ensures
            final(self).wf(),
            (final(self)@, r) == old(self)@.after_failure(e, width, height),
    {
        if self.closed {
            return Command::Nothing;
        }
        match &mut self.state {
            None => Command::Nothing,
            Some(s) => match s.recover(e, width, height) {
                Recovery::Reconfigure(c) => Command::Configure(c),
                Recovery::Wait => Command::Nothing,
                Recovery::Terminate(f) => {
                    self.closed = true;
                    Command::Fail(f)
                },
            },
        }
    }
}

} // verus!
