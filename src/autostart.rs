//! Decisions around the operating system's autostart registration, which
//! the caller queries and changes.

use vstd::prelude::*;

verus! {

/// The change to request of the autostart registration.
#[derive(Clone, Copy, Debug, PartialEq, Eq)]
pub enum AutostartAction {
    Enable,
    Disable,
}

/// Whether autostart counts as enabled, given the outcome of the query
/// (`None` when it failed): a failed query reads as disabled.
pub fn autostart_enabled(query: Option<bool>) -> (r: bool)
    ensures
        r == (query == Some(true)),
{
    match query {
        Some(b) => b,
        None => false,
    }
}

/// The request that brings the registration to `enabled`.
pub fn autostart_action(enabled: bool) -> (r: AutostartAction)
    ensures
        r == (if enabled {
            AutostartAction::Enable
        } else {
            AutostartAction::Disable
        }),
{
    if enabled {
        AutostartAction::Enable
    } else {
        AutostartAction::Disable
    }
}

} // verus!
