//! The decisions of the correlation updater, which refreshes the universe on
//! a period and rebuilds it on every reload request.

use vstd::prelude::*;

use crate::lifecycle::ShutdownSignal;

verus! {

/// What woke the correlation updater.
#[derive(Debug, Clone, Copy, PartialEq, Eq, Structural)]
pub enum UpdaterEvent {
    /// The refresh period has passed.
    RefreshDue,
    /// A reload request arrived.
    Reload,
    /// Reload requests were missed because the receiver lagged.
    ReloadLagged,
    /// The reload channel closed.
    ReloadClosed,
    /// The shutdown state changed to this one.
    ShutdownChanged(ShutdownSignal),
}

/// What the correlation updater does next.
#[derive(Debug, Clone, Copy, PartialEq, Eq, Structural)]
pub enum UpdaterAction {
    /// Blend a fresh draw into the correlation matrix.
    Refresh,
    /// Replace the correlation matrix with a fresh draw.
    Rebuild,
    /// Wait for the next event.
    Wait,
    /// Leave the loop.
    Stop,
}

/// A due refresh refreshes, a reload rebuilds, missed reloads are ignored,
/// and a closed reload channel or any shutdown request ends the updater.
pub fn updater_step(event: UpdaterEvent) -> (r: UpdaterAction)
    ensures
        event == UpdaterEvent::RefreshDue ==> r == UpdaterAction::Refresh,
        event == UpdaterEvent::Reload ==> r == UpdaterAction::Rebuild,
        event == UpdaterEvent::ReloadLagged ==> r == UpdaterAction::Wait,
        event == UpdaterEvent::ReloadClosed ==> r == UpdaterAction::Stop,
        event matches UpdaterEvent::ShutdownChanged(s) ==> r == (if s == ShutdownSignal::Running {
            UpdaterAction::Wait
        } else {
            UpdaterAction::Stop
        }),
{
    match event {
        UpdaterEvent::RefreshDue => UpdaterAction::Refresh,
        UpdaterEvent::Reload => UpdaterAction::Rebuild,
        UpdaterEvent::ReloadLagged => UpdaterAction::Wait,
        UpdaterEvent::ReloadClosed => UpdaterAction::Stop,
        UpdaterEvent::ShutdownChanged(s) => if s.requests_stop() {
            UpdaterAction::Stop
        } else {
            UpdaterAction::Wait
        },
    }
}

} // verus!
