//! The session-wide laws of the controller, stated over the same spec
//! functions its contracts use.

use vstd::prelude::*;
use crate::controller::Controller;
use crate::controller::SessionEvent;
use crate::controller::WindowRole;
use crate::controller::spec_handle;
use crate::controller::spec_plan;
use crate::controller::spec_response;
use crate::controller::spec_step;

verus! {

/// Whether a handle matches some held window.
pub open spec fn spec_matches_held(s: Controller, h: u64) -> bool {
    s.primary == Some(h) || s.secondary == Some(h)
}

/// The number of redraw requests a single resize event issues.
pub open spec fn spec_resize_redraws(s: Controller, h: u64, w: u32, ht: u32) -> nat {
    let r = spec_response(s, h, SessionEvent::Resized(w, ht));
    (if r.redraw_primary {
        1nat
    } else {
        0nat
    }) + (if r.redraw_secondary {
        1nat
    } else {
        0nat
    })
}

/// A resize event requests a redraw for each role whose held handle equals
/// the event's handle — never for both roles at once, since a well-formed
/// session gives the two roles distinct handles — and leaves the session
/// state unchanged.
pub proof fn lemma_resize_redraws(s: Controller, h: u64, w: u32, ht: u32)
    requires
        s.wf(),
    ensures
        ({
            let r = spec_response(s, h, SessionEvent::Resized(w, ht));
            &&& r.redraw_primary == (s.primary == Some(h))
            &&& r.redraw_secondary == (s.secondary == Some(h))
            &&& spec_resize_redraws(s, h, w, ht) == (if spec_matches_held(s, h) {
                1nat
            } else {
                0nat
            })
            &&& spec_step(s, h, SessionEvent::Resized(w, ht)) == s
        }),
{
}

/// Total redraw requests over a sequence of resize events delivered in order.
pub open spec fn spec_run_resizes(s: Controller, hs: Seq<u64>, w: u32, ht: u32) -> nat
    decreases hs.len(),
{
    if hs.len() == 0 {
        0nat
    } else {
        spec_resize_redraws(s, hs[0], w, ht) + spec_run_resizes(
            spec_step(s, hs[0], SessionEvent::Resized(w, ht)),
            hs.drop_first(),
            w,
            ht,
        )
    }
}

/// The number of events in a sequence whose handle matches a held window.
pub open spec fn spec_matching_count(s: Controller, hs: Seq<u64>) -> nat
    decreases hs.len(),
{
    if hs.len() == 0 {
        0nat
    } else {
        (if spec_matches_held(s, hs[0]) {
            1nat
        } else {
            0nat
        }) + spec_matching_count(s, hs.drop_first())
    }
}

/// Over any sequence of resize events, exactly one redraw request is issued
/// per event targeting a held handle, and none for the others.
pub proof fn lemma_resize_sequence(s: Controller, hs: Seq<u64>, w: u32, ht: u32)
    requires
        s.wf(),
    ensures
        spec_run_resizes(s, hs, w, ht) == spec_matching_count(s, hs),
    decreases hs.len(),
{
    if hs.len() > 0 {
        lemma_resize_redraws(s, hs[0], w, ht);
        lemma_resize_sequence(s, hs.drop_first(), w, ht);
    }
}

/// A close request on any handle clears both handles, terminates the session
/// and signals the loop to exit. Termination is final: `on_window_event`
/// requires a running session, and the loop delivers no events after exiting,
/// so the transition to the terminated state happens exactly once.
pub proof fn lemma_close_terminates(s: Controller, h: u64)
    ensures
        ({
            let s2 = spec_step(s, h, SessionEvent::CloseRequested);
            &&& s2.terminated
            &&& s2.primary is None
            &&& s2.secondary is None
            &&& s2.wf()
        }),
        spec_response(s, h, SessionEvent::CloseRequested).exit,
{
}

/// Activation is idempotent: it never requests a window for a role that
/// already holds a handle, so a second activation creates no second window
/// of the same role.
pub proof fn lemma_activation_idempotent(s: Controller, role: WindowRole)
    requires
        spec_handle(s, role) is Some,
    ensures
        !spec_plan(s).contains(role),
{
    let plan = spec_plan(s);
    assert forall|i: int| 0 <= i < plan.len() implies plan[i] != role by {
        match role {
            WindowRole::Primary => {
                assert(plan =~= (if s.secondary is None {
                    seq![WindowRole::Secondary]
                } else {
                    Seq::<WindowRole>::empty()
                }));
            },
            WindowRole::Secondary => {
                assert(plan =~= (if s.primary is None {
                    seq![WindowRole::Primary]
                } else {
                    Seq::<WindowRole>::empty()
                }));
            },
        }
    }
}

/// Once both roles hold handles, activation requests nothing at all.
pub proof fn lemma_activation_complete(s: Controller)
    requires
        s.primary is Some,
        s.secondary is Some,
    ensures
        spec_plan(s).len() == 0,
{
}

} // verus!
