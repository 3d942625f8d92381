//! How the engine's rules are kept fresh.

use crate::engine::rule_views;
use crate::error::DomainError;
use crate::messages::UpdateRules;
use crate::rule::Rule;
use std::sync::Arc;
use vstd::prelude::*;

verus! {

/// What became of the last thing that the refresh asked for.
#[derive(Debug)]
pub enum RefreshEvent {
    /// The active rules were loaded, or could not be.
    Loaded(Result<Vec<Rule>, DomainError>),
    /// The engine was told of the rules, or could not be; the text says why.
    Sent(Result<(), String>),
}

/// What the refresh asks for next.
#[derive(Debug)]
pub enum RefreshAction {
    /// Tell the engine of the rules.
    Send(UpdateRules),
    /// Load the rules again at the next tick.
    AwaitTick,
    /// Stop refreshing.
    Stop,
}

/// What the refresh asks for next: rules that were loaded go to the engine; a
/// failure to load them is waited out; without an engine there is no more to do.
pub fn next_refresh(event: RefreshEvent) -> (r: RefreshAction)
    ensures
        match event {
            RefreshEvent::Loaded(Ok(rules)) => r matches RefreshAction::Send(msg) && rule_views(
                msg.rules@,
            ) == rule_views(rules@) && msg.rules@ == rules@,
            RefreshEvent::Loaded(Err(_)) => r == RefreshAction::AwaitTick,
            RefreshEvent::Sent(Ok(())) => r == RefreshAction::AwaitTick,
            RefreshEvent::Sent(Err(_)) => r == RefreshAction::Stop,
        },
{
    match event {
        RefreshEvent::Loaded(result) => match result {
            Ok(rules) => RefreshAction::Send(UpdateRules { rules: Arc::new(rules) }),
            Err(_) => RefreshAction::AwaitTick,
        },
        RefreshEvent::Sent(result) => match result {
            Ok(()) => RefreshAction::AwaitTick,
            Err(_) => RefreshAction::Stop,
        },
    }
}

} // verus!
