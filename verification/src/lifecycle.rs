//! The lifecycle of an installed plugin as a state machine.

use vstd::prelude::*;

verus! {

/// Where a backend instance stands.
#[derive(Debug, Clone, Copy, PartialEq, Eq, Structural)]
pub enum PluginState {
    Uninstalled,
    Installing,
    Installed,
    Updating,
    Removing,
}

/// What can happen to a backend instance.
#[derive(Debug, Clone, Copy, PartialEq, Eq, Structural)]
pub enum Event {
    /// Installation is asked for; `force` asks for it over an existing one.
    EnsureInstalled { force: bool },
    /// An update is asked for.
    Update,
    /// Removal is asked for.
    Uninstall,
    /// The operation under way has succeeded.
    Succeeded,
    /// The operation under way has failed.
    Failed,
}

/// The state that follows `state` on `event`; `None` where the event has no meaning there.
pub open spec fn spec_next_state(state: PluginState, event: Event) -> Option<PluginState> {
    match (state, event) {
        (PluginState::Uninstalled, Event::EnsureInstalled { force }) => Some(
            PluginState::Installing,
        ),
        (PluginState::Uninstalled, Event::Uninstall) => Some(PluginState::Uninstalled),
        (PluginState::Installing, Event::Succeeded) => Some(PluginState::Installed),
        (PluginState::Installing, Event::Failed) => Some(PluginState::Uninstalled),
        (PluginState::Installed, Event::EnsureInstalled { force }) => Some(
            if force {
                PluginState::Installing
            } else {
                PluginState::Installed
            },
        ),
        (PluginState::Installed, Event::Update) => Some(PluginState::Updating),
        (PluginState::Installed, Event::Uninstall) => Some(PluginState::Removing),
        (PluginState::Updating, Event::Succeeded) => Some(PluginState::Installed),
        (PluginState::Updating, Event::Failed) => Some(PluginState::Installed),
        (PluginState::Removing, Event::Succeeded) => Some(PluginState::Uninstalled),
        (PluginState::Removing, Event::Failed) => Some(PluginState::Installed),
        _ => None,
    }
}

/// The state of a backend on which no operation is under way, by whether its directory is
/// there.
pub open spec fn settled_state(installed: bool) -> PluginState {
    if installed {
        PluginState::Installed
    } else {
        PluginState::Uninstalled
    }
}

/// Whether no operation is under way in `state`.
pub open spec fn is_settled(state: PluginState) -> bool {
    state == PluginState::Uninstalled || state == PluginState::Installed
}

/// The state that follows `state` on `event`; `None` where the event has no meaning there.
pub fn next_state(state: PluginState, event: Event) -> (next: Option<PluginState>)
    ensures
        next == spec_next_state(state, event),
{
    match state {
        PluginState::Uninstalled => match event {
            Event::EnsureInstalled { force: _ } => Some(PluginState::Installing),
            Event::Uninstall => Some(PluginState::Uninstalled),
            _ => None,
        },
        PluginState::Installing => match event {
            Event::Succeeded => Some(PluginState::Installed),
            Event::Failed => Some(PluginState::Uninstalled),
            _ => None,
        },
        PluginState::Installed => match event {
            Event::EnsureInstalled { force } => if force {
                Some(PluginState::Installing)
            } else {
                Some(PluginState::Installed)
            },
            Event::Update => Some(PluginState::Updating),
            Event::Uninstall => Some(PluginState::Removing),
            _ => None,
        },
        PluginState::Updating => match event {
            Event::Succeeded | Event::Failed => Some(PluginState::Installed),
            _ => None,
        },
        PluginState::Removing => match event {
            Event::Succeeded => Some(PluginState::Uninstalled),
            Event::Failed => Some(PluginState::Installed),
            _ => None,
        },
    }
}

/// A request is accepted exactly in a settled state, except that only what is installed can
/// be updated; an outcome is accepted exactly while an operation is under way.
pub proof fn lemma_events_alternate(state: PluginState, event: Event)
    ensures
        spec_next_state(state, event) is Some <==> if event == Event::Succeeded || event
            == Event::Failed {
            !is_settled(state)
        } else if event == Event::Update {
            state == PluginState::Installed
        } else {
            is_settled(state)
        },
{
}

/// Every operation ends in a settled state, whatever its outcome.
pub proof fn lemma_outcome_settles(state: PluginState, outcome: Event)
    requires
        !is_settled(state),
        outcome == Event::Succeeded || outcome == Event::Failed,
    ensures
        spec_next_state(state, outcome) matches Some(next) && is_settled(next),
{
}

/// Asking for what already holds changes nothing: installing what is installed, without
/// force, and removing what was never installed.
pub proof fn lemma_idempotent_requests()
    ensures
        spec_next_state(PluginState::Installed, Event::EnsureInstalled { force: false }) == Some(
            PluginState::Installed,
        ),
        spec_next_state(PluginState::Uninstalled, Event::Uninstall) == Some(
            PluginState::Uninstalled,
        ),
{
}

} // verus!
