//! The application driver's phase/event state machine.
//!
//! The driver owns the window, the GL context and the GUI state. It has
//! two phases: `Uninitialized` (only on creation) and `Running` (after
//! the platform signals that GPU and window resources may be acquired).
//! Per event it decides one action; the event loop around the library
//! performs the action (resource acquisition, one frame, or requesting
//! that the event loop exit).

use vstd::prelude::*;

verus! {

/// The driver's phase. There are exactly two, and once `Running` is
/// reached no further phase transition exists.
#[derive(Clone, Copy, PartialEq, Eq, Structural, Debug)]
pub enum Phase {
    /// Before the platform has allowed resource acquisition.
    Uninitialized,
    /// All window, GL and GUI resources are owned; frames can render.
    Running,
}

/// The platform events the driver distinguishes. Everything else is
/// `Other` and is ignored.
#[derive(Clone, Copy, PartialEq, Eq, Structural, Debug)]
pub enum AppEvent {
    /// The platform allows the application to acquire its resources.
    Resumed,
    /// The user asked to close the window.
    CloseRequested,
    /// The platform asks for one frame to be drawn.
    RedrawRequested,
    /// Any other window event.
    Other,
}

/// What the event loop must do in response to one event.
#[derive(Clone, Copy, PartialEq, Eq, Structural, Debug)]
pub enum Action {
    /// Acquire window, GL context, surface, GUI and painter resources,
    /// in that order. Any failure here is fatal.
    Initialize,
    /// Request that the event loop terminate.
    Exit,
    /// Run exactly one frame (clear, GUI pass, tessellate, paint,
    /// render 3D into the GUI-derived viewport, swap buffers) and then
    /// immediately request another redraw.
    RenderFrame,
    /// Do nothing.
    Ignore,
}

/// The driver's transition function: next phase and required action for
/// one event in one phase.
pub open spec fn spec_step(p: Phase, e: AppEvent) -> (Phase, Action) {
    match (p, e) {
        (Phase::Uninitialized, AppEvent::Resumed) => (Phase::Running, Action::Initialize),
        (Phase::Uninitialized, _) => (Phase::Uninitialized, Action::Ignore),
        (Phase::Running, AppEvent::CloseRequested) => (Phase::Running, Action::Exit),
        (Phase::Running, AppEvent::RedrawRequested) => (Phase::Running, Action::RenderFrame),
        (Phase::Running, _) => (Phase::Running, Action::Ignore),
    }
}

/// Decide the next phase and the action for one platform event.
/// Initialization happens exactly on the first `Resumed`; while running,
/// a close request asks the loop to exit, a redraw request renders one
/// frame, and every other event is ignored.
pub fn step(p: Phase, e: AppEvent) -> (r: (Phase, Action))
    ensures
        r == spec_step(p, e),
        r.1 == Action::Initialize <==> (p == Phase::Uninitialized && e == AppEvent::Resumed),
        r.0 == Phase::Running <==> (p == Phase::Running || e == AppEvent::Resumed),
{
    match (p, e) {
        (Phase::Uninitialized, AppEvent::Resumed) => (Phase::Running, Action::Initialize),
        (Phase::Uninitialized, _) => (Phase::Uninitialized, Action::Ignore),
        (Phase::Running, AppEvent::CloseRequested) => (Phase::Running, Action::Exit),
        (Phase::Running, AppEvent::RedrawRequested) => (Phase::Running, Action::RenderFrame),
        (Phase::Running, _) => (Phase::Running, Action::Ignore),
    }
}

/// Once the driver is running it stays running: no event leaves the
/// `Running` phase.
pub proof fn lemma_running_is_terminal(e: AppEvent)
    ensures
        spec_step(Phase::Running, e).0 == Phase::Running,
{
}

/// Resources are acquired at most once: no event in the `Running` phase
/// asks for initialization again.
pub proof fn lemma_initialize_only_once(e: AppEvent)
    ensures
        spec_step(Phase::Running, e).1 != Action::Initialize,
{
}

} // verus!
