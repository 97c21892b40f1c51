//! Renderer lifecycle: the GPU objects are built exactly once, painted
//! any number of times while they exist, and released exactly once.
//!
//! The module gives the lifecycle as a small state machine over events,
//! an executable tracker the unverified graphics code drives, and a proof
//! that initialize → paint… → destroy is the only ordering the machine
//! admits: no paint or destroy before initialize, and nothing after
//! destroy.

use vstd::prelude::*;

verus! {

/// Where the renderer's GPU objects stand.
#[derive(Clone, Copy, PartialEq, Eq, Structural, Debug)]
pub enum RendererPhase {
    /// No GPU objects exist yet.
    Uninitialized,
    /// The program and vertex array exist and may be painted with.
    Initialized,
    /// The program and vertex array have been released.
    Destroyed,
}

/// The three operations the renderer exposes.
#[derive(Clone, Copy, PartialEq, Eq, Structural, Debug)]
pub enum LifecycleEvent {
    /// Compile, link and upload the GPU objects.
    Initialize,
    /// Draw one frame with the existing objects.
    Paint,
    /// Release the GPU objects.
    Destroy,
}

/// The phase after one event, or `None` when the event is not allowed in
/// the given phase: only an uninitialized renderer may initialize, and
/// only an initialized one may paint or be destroyed.
pub open spec fn phase_after(p: RendererPhase, e: LifecycleEvent) -> Option<RendererPhase> {
    match (p, e) {
        (RendererPhase::Uninitialized, LifecycleEvent::Initialize) => Some(
            RendererPhase::Initialized,
        ),
        (RendererPhase::Initialized, LifecycleEvent::Paint) => Some(RendererPhase::Initialized),
        (RendererPhase::Initialized, LifecycleEvent::Destroy) => Some(RendererPhase::Destroyed),
        _ => None,
    }
}

/// The phase after a whole trace of events, run from the uninitialized
/// phase, or `None` as soon as one event is not allowed.
pub open spec fn phase_after_trace(t: Seq<LifecycleEvent>) -> Option<RendererPhase>
    decreases t.len(),
{
    if t.len() == 0 {
        Some(RendererPhase::Uninitialized)
    } else {
        match phase_after_trace(t.drop_last()) {
            Some(p) => phase_after(p, t.last()),
            None => None,
        }
    }
}

/// A trace of events the lifecycle admits in full.
pub open spec fn trace_allowed(t: Seq<LifecycleEvent>) -> bool {
    phase_after_trace(t) is Some
}

/// The shape every admitted trace has: initialize first and only first,
/// and destroy, if it occurs, only as the last event.
pub open spec fn well_ordered(t: Seq<LifecycleEvent>) -> bool {
    forall|i: int|
        0 <= i < t.len() ==> ((t[i] is Initialize <==> i == 0) && (t[i] is Destroy ==> i == t.len()
            - 1))
}

/// Which phase a trace of the admitted shape ends in, read off the trace
/// itself: empty means uninitialized, a trailing destroy means destroyed,
/// anything else means initialized.
proof fn lemma_trace_phase(t: Seq<LifecycleEvent>)
    ensures
        (phase_after_trace(t) == Some(RendererPhase::Uninitialized)) <==> t.len() == 0,
        (phase_after_trace(t) == Some(RendererPhase::Initialized)) <==> (t.len() > 0
            && well_ordered(t) && !(t.last() is Destroy)),
        (phase_after_trace(t) == Some(RendererPhase::Destroyed)) <==> (t.len() > 0 && well_ordered(
            t,
        ) && t.last() is Destroy),
    decreases t.len(),
{
    if t.len() == 0 {
    } else {
        let s = t.drop_last();
        lemma_trace_phase(s);
        if t.len() > 1 && well_ordered(s) && !(s.last() is Destroy) && !(t.last() is Initialize) {
            assert(well_ordered(t)) by {
                assert forall|i: int| 0 <= i < t.len() implies ((t[i] is Initialize <==> i == 0) && (
                t[i] is Destroy ==> i == t.len() - 1)) by {
                    if i < t.len() - 1 {
                        assert(t[i] == s[i]);
                    }
                }
            }
        }
        if well_ordered(t) {
            assert(well_ordered(s)) by {
                assert forall|i: int| 0 <= i < s.len() implies ((s[i] is Initialize <==> i == 0) && (
                s[i] is Destroy ==> i == s.len() - 1)) by {
                    assert(s[i] == t[i]);
                }
            }
        }
    }
}

/// The lifecycle ordering law: a trace of initialize, paint and destroy
/// events is admitted exactly when initialize stands first and nowhere
/// else and destroy stands nowhere but last — initialize → paint… →
/// destroy, with no paint before initialize and none after destroy.
pub proof fn lemma_lifecycle_ordering(t: Seq<LifecycleEvent>)
    ensures
        trace_allowed(t) <==> well_ordered(t),
{
    lemma_trace_phase(t);
}

/// Executable lifecycle tracker. The graphics code asks it before every
/// operation; the phase field mirrors the trace of events granted so far.
pub struct RendererLifecycle {
    /// The current phase.
    pub phase: RendererPhase,
    /// The events granted so far, oldest first.
    pub history: Ghost<Seq<LifecycleEvent>>,
}

impl RendererLifecycle {
    /// The tracker is coherent: its phase is the one its history runs to.
    pub open spec fn wf(self) -> bool {
        phase_after_trace(self.history@) == Some(self.phase)
    }

    /// A fresh tracker: nothing has happened, the renderer is
    /// uninitialized.
    pub fn new() -> (s: Self)
        ensures
            s.wf(),
            s.phase == RendererPhase::Uninitialized,
            s.history@ == Seq::<LifecycleEvent>::empty(),
    {
        RendererLifecycle {
            phase: RendererPhase::Uninitialized,
            history: Ghost(Seq::empty()),
        }
    }

    /// Grant or refuse one event. A granted event is appended to the
    /// history and moves the phase as the state machine says; a refused
    /// one changes nothing. Every history the tracker ever holds is an
    /// admitted trace.
    pub fn advance(&mut self, e: LifecycleEvent) -> (granted: bool)
        requires
            old(self).wf(),
        ensures
            final(self).wf(),
            granted == (phase_after(old(self).phase, e) is Some),
            granted ==> (phase_after(old(self).phase, e) == Some(final(self).phase)
                && final(self).history@ == old(self).history@.push(e)),
            !granted ==> *final(self) == *old(self),
    {
        let next: Option<RendererPhase> = match (self.phase, e) {
            (RendererPhase::Uninitialized, LifecycleEvent::Initialize) => Some(
                RendererPhase::Initialized,
            ),
            (RendererPhase::Initialized, LifecycleEvent::Paint) => Some(
                RendererPhase::Initialized,
            ),
            (RendererPhase::Initialized, LifecycleEvent::Destroy) => Some(
                RendererPhase::Destroyed,
            ),
            _ => None,
        };
        match next {
            Some(p) => {
                proof {
                    let h = self.history@.push(e);
                    assert(h.drop_last() =~= self.history@);
                    assert(h.last() == e);
                }
                self.phase = p;
                self.history = Ghost(self.history@.push(e));
                true
            },
            None => false,
        }
    }

    /// Whether a paint call is allowed now: only between initialize and
    /// destroy.
    pub fn may_paint(&self) -> (r: bool)
        ensures
            r == (self.phase is Initialized),
    {
        match self.phase {
            RendererPhase::Initialized => true,
            _ => false,
        }
    }
}

} // verus!
