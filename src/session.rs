use vstd::prelude::*;

verus! {

/// What the window system reports to the viewer.
#[derive(Clone, Copy, Debug, PartialEq, Eq, Structural)]
pub enum WindowEvent {
    /// The user asked to close the window.
    CloseRequested,
    /// The window is ready for a new frame.
    RedrawRequested,
    /// The framebuffer now has this size, in pixels.
    Resized { width: u32, height: u32 },
    /// The event queue is empty for now.
    AboutToWait,
    /// Anything else.
    Other,
}

/// What the viewer does in answer to an event.
#[derive(Clone, Copy, Debug, PartialEq, Eq, Structural)]
pub enum Action {
    /// Stop the event loop; nothing more is drawn.
    Exit,
    /// Draw frame number `frame`: its camera position is a function of it.
    DrawFrame { frame: u64 },
    /// Resize the framebuffer.
    Resize { width: u32, height: u32 },
    /// Ask the window system for another frame, for continuous animation.
    RequestRedraw,
    /// Nothing to do.
    Ignore,
}

/// The state of a viewing session: the number of the next frame to draw, and
/// whether the window was closed.
#[derive(Clone, Copy, Debug, PartialEq, Eq, Structural)]
pub struct Session {
    pub frame: u64,
    pub closed: bool,
}

/// The number of the frame after `frame`, back to 0 after the largest `u64`.
pub open spec fn next_frame(frame: u64) -> u64 {
    if frame == u64::MAX {
        0
    } else {
        (frame + 1) as u64
    }
}

/// The session after `event`, and the action it calls for. Frame numbers
/// count drawn frames.
pub open spec fn session_step(s: Session, event: WindowEvent) -> (Session, Action) {
    if s.closed {
        (s, Action::Exit)
    } else {
        match event {
            WindowEvent::CloseRequested => (Session { frame: s.frame, closed: true }, Action::Exit),
            WindowEvent::RedrawRequested => (
                Session { frame: next_frame(s.frame), closed: false },
                Action::DrawFrame { frame: s.frame },
            ),
            WindowEvent::Resized { width, height } => (s, Action::Resize { width, height }),
            WindowEvent::AboutToWait => (s, Action::RequestRedraw),
            WindowEvent::Other => (s, Action::Ignore),
        }
    }
}

impl Session {
    /// A session with no frame drawn yet and the window open.
    pub fn new() -> (r: Session)
        ensures
            r.frame == 0,
            !r.closed,
    {
        Session { frame: 0, closed: false }
    }

    /// Takes one event and returns what to do about it.
    pub fn handle(&mut self, event: WindowEvent) -> (r: Action)
        ensures
            (*final(self), r) == session_step(*old(self), event),
    {
        if self.closed {
            return Action::Exit;
        }
        match event {
            WindowEvent::CloseRequested => {
                self.closed = true;
                Action::Exit
            },
            WindowEvent::RedrawRequested => {
                let frame = self.frame;
                self.frame = self.frame.wrapping_add(1);
                Action::DrawFrame { frame }
            },
            WindowEvent::Resized { width, height } => Action::Resize { width, height },
            WindowEvent::AboutToWait => Action::RequestRedraw,
            WindowEvent::Other => Action::Ignore,
        }
    }
}

} // verus!
