//! The session controller: which window handles are held, how window events
//! are routed, and when the session terminates.

use vstd::prelude::*;

verus! {

/// The two window roles the session can hold, plus the label for an event
/// whose handle matches neither.
#[derive(Clone, Copy, Debug, PartialEq, Eq, Structural)]
pub enum WindowRole {
    Primary,
    Secondary,
}

/// The label a window event is routed to, used purely for log messages.
#[derive(Clone, Copy, Debug, PartialEq, Eq, Structural)]
pub enum WindowLabel {
    Primary,
    Secondary,
    Unknown,
}

/// The session controller. It holds at most one handle per role; once
/// terminated it holds none and processes no further events.
#[derive(Clone, Debug, PartialEq, Eq)]
pub struct Controller {
    pub primary: Option<u64>,
    pub secondary: Option<u64>,
    pub terminated: bool,
}

impl Controller {
    /// Well-formedness: a terminated session holds no handles, and the two
    /// roles never share a handle.
    pub open spec fn wf(self) -> bool {
        &&& (self.terminated ==> self.primary is None && self.secondary is None)
        &&& (self.primary is Some && self.secondary is Some ==> self.primary != self.secondary)
    }

    /// A fresh session: no handles held, not terminated.
    pub fn new() -> (r: Controller)
        ensures
            r.primary is None,
            r.secondary is None,
            !r.terminated,
            r.wf(),
    {
        Controller { primary: None, secondary: None, terminated: false }
    }
}

/// The handle held for a role, if any.
pub open spec fn spec_handle(s: Controller, role: WindowRole) -> Option<u64> {
    match role {
        WindowRole::Primary => s.primary,
        WindowRole::Secondary => s.secondary,
    }
}

/// The other role of the pair.
pub open spec fn spec_other_role(role: WindowRole) -> WindowRole {
    match role {
        WindowRole::Primary => WindowRole::Secondary,
        WindowRole::Secondary => WindowRole::Primary,
    }
}

/// The roles an activation must create windows for: exactly those that hold
/// no handle yet, the primary first.
pub open spec fn spec_plan(s: Controller) -> Seq<WindowRole> {
    let p: Seq<WindowRole> = if s.primary is None {
        seq![WindowRole::Primary]
    } else {
        seq![]
    };
    let q: Seq<WindowRole> = if s.secondary is None {
        seq![WindowRole::Secondary]
    } else {
        seq![]
    };
    p + q
}

/// Why the event loop woke up: its first start, or anything later.
#[derive(Clone, Copy, Debug, PartialEq, Eq, Structural)]
pub enum StartCause {
    Init,
    Other,
}

/// The window events the session reacts to; every other platform event is
/// `Other` and is ignored.
#[derive(Clone, Copy, Debug, PartialEq, Eq, Structural)]
pub enum SessionEvent {
    CloseRequested,
    RedrawRequested,
    Resized(u32, u32),
    Other,
}

/// The log line an event gives rise to.
#[derive(Clone, Copy, Debug, PartialEq, Eq, Structural)]
pub enum LogEntry {
    CloseRequested,
    RedrawRequested,
    Resized(u32, u32),
}

/// What the shell must do after an event: print the log line under the
/// label, request redraws for the named roles, and exit the loop if asked.
#[derive(Clone, Copy, Debug, PartialEq, Eq, Structural)]
pub struct EventResponse {
    pub label: WindowLabel,
    pub log: Option<LogEntry>,
    pub redraw_primary: bool,
    pub redraw_secondary: bool,
    pub exit: bool,
}

/// The label an event handle is routed to: the role whose held handle equals
/// it, or `Unknown`.
pub open spec fn spec_label(s: Controller, h: u64) -> WindowLabel {
    if s.primary == Some(h) {
        WindowLabel::Primary
    } else if s.secondary == Some(h) {
        WindowLabel::Secondary
    } else {
        WindowLabel::Unknown
    }
}

/// The controller state after an event: a close request clears both handles
/// and terminates the session; every other event leaves the state unchanged.
pub open spec fn spec_step(s: Controller, h: u64, e: SessionEvent) -> Controller {
    match e {
        SessionEvent::CloseRequested => Controller {
            primary: None,
            secondary: None,
            terminated: true,
        },
        _ => s,
    }
}

/// The actions an event gives rise to: close logs and exits; redraw logs; a
/// resize logs and requests a redraw for each role whose handle matches;
/// other events do nothing.
pub open spec fn spec_response(s: Controller, h: u64, e: SessionEvent) -> EventResponse {
    let label = spec_label(s, h);
    match e {
        SessionEvent::CloseRequested => EventResponse {
            label,
            log: Some(LogEntry::CloseRequested),
            redraw_primary: false,
            redraw_secondary: false,
            exit: true,
        },
        SessionEvent::RedrawRequested => EventResponse {
            label,
            log: Some(LogEntry::RedrawRequested),
            redraw_primary: false,
            redraw_secondary: false,
            exit: false,
        },
        SessionEvent::Resized(w, ht) => EventResponse {
            label,
            log: Some(LogEntry::Resized(w, ht)),
            redraw_primary: s.primary == Some(h),
            redraw_secondary: s.secondary == Some(h),
            exit: false,
        },
        SessionEvent::Other => EventResponse {
            label,
            log: None,
            redraw_primary: false,
            redraw_secondary: false,
            exit: false,
        },
    }
}

impl Controller {
    /// Route a handle to its label.
    pub fn label_of(&self, handle: u64) -> (r: WindowLabel)
        ensures
            r == spec_label(*self, handle),
    {
        let primary_matches = match self.primary {
            Some(p) => p == handle,
            None => false,
        };
        let secondary_matches = match self.secondary {
            Some(q) => q == handle,
            None => false,
        };
        if primary_matches {
            WindowLabel::Primary
        } else if secondary_matches {
            WindowLabel::Secondary
        } else {
            WindowLabel::Unknown
        }
    }

    /// Handle one window event: update the session state as `spec_step` says
    /// and return the actions `spec_response` says. The event loop delivers
    /// no events after termination, so a terminated session sees none.
    pub fn on_window_event(&mut self, handle: u64, event: SessionEvent) -> (r: EventResponse)
        requires
            old(self).wf(),
            !old(self).terminated,
        ensures
            *final(self) == spec_step(*old(self), handle, event),
            r == spec_response(*old(self), handle, event),
            final(self).wf(),
    {
        let label = self.label_of(handle);
        match event {
            SessionEvent::CloseRequested => {
                self.primary = None;
                self.secondary = None;
                self.terminated = true;
                EventResponse {
                    label,
                    log: Some(LogEntry::CloseRequested),
                    redraw_primary: false,
                    redraw_secondary: false,
                    exit: true,
                }
            },
            SessionEvent::RedrawRequested => EventResponse {
                label,
                log: Some(LogEntry::RedrawRequested),
                redraw_primary: false,
                redraw_secondary: false,
                exit: false,
            },
            SessionEvent::Resized(w, ht) => {
                let redraw_primary = match self.primary {
                    Some(p) => p == handle,
                    None => false,
                };
                let redraw_secondary = match self.secondary {
                    Some(q) => q == handle,
                    None => false,
                };
                EventResponse {
                    label,
                    log: Some(LogEntry::Resized(w, ht)),
                    redraw_primary,
                    redraw_secondary,
                    exit: false,
                }
            },
            SessionEvent::Other => EventResponse {
                label,
                log: None,
                redraw_primary: false,
                redraw_secondary: false,
                exit: false,
            },
        }
    }

    /// The roles to create windows for on activation: those not yet held.
    pub fn activation_requests(&self) -> (r: Vec<WindowRole>)
        ensures
            r@ == spec_plan(*self),
    {
        let mut r: Vec<WindowRole> = Vec::new();
        if self.primary.is_none() {
            r.push(WindowRole::Primary);
        }
        if self.secondary.is_none() {
            r.push(WindowRole::Secondary);
        }
        proof {
            assert(r@ =~= spec_plan(*self));
        }
        r
    }

    /// Record the handle of a freshly created window under its role. The
    /// slot must be free — activation only requests windows for free slots —
    /// and the handle must differ from the one the other role holds.
    pub fn attach_window(&mut self, role: WindowRole, handle: u64)
        requires
            old(self).wf(),
            !old(self).terminated,
            spec_handle(*old(self), role) is None,
            spec_handle(*old(self), spec_other_role(role)) != Some(handle),
        ensures
            final(self).wf(),
            !final(self).terminated,
            spec_handle(*final(self), role) == Some(handle),
            spec_handle(*final(self), spec_other_role(role)) == spec_handle(
                *old(self),
                spec_other_role(role),
            ),
    {
        match role {
            WindowRole::Primary => {
                self.primary = Some(handle);
            },
            WindowRole::Secondary => {
                self.secondary = Some(handle);
            },
        }
    }

    /// Whether the start of a new event batch must log the one-time
    /// initialization line: exactly when the cause is the loop's startup.
    pub fn on_new_events(&self, cause: StartCause) -> (log_init: bool)
        ensures
            log_init == (cause == StartCause::Init),
    {
        match cause {
            StartCause::Init => true,
            StartCause::Other => false,
        }
    }
}

impl WindowLabel {
    /// The text of the label as it appears in log lines.
    pub open spec fn spec_text(self) -> Seq<char> {
        match self {
            WindowLabel::Primary => "Main"@,
            WindowLabel::Secondary => "Child"@,
            WindowLabel::Unknown => "Unknown"@,
        }
    }

    /// The log text of the label.
    pub fn text(&self) -> (r: &'static str)
        ensures
            r@ == self.spec_text(),
    {
        match self {
            WindowLabel::Primary => "Main",
            WindowLabel::Secondary => "Child",
            WindowLabel::Unknown => "Unknown",
        }
    }
}

} // verus!
