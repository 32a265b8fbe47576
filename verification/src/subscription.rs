//! Whether the central is subscribed to notifications.

use vstd::prelude::*;

verus! {

/// The subscription flag: written by the engine, read by any caller.
///
/// It moves between two states and has no terminal one: a notify
/// subscription that was accepted sets it, a failed write on the notify
/// stream clears it.
pub struct SubscriptionState {
    subscribed: bool,
}

impl View for SubscriptionState {
    type V = bool;

    closed spec fn view(&self) -> bool {
        self.subscribed
    }
}

impl SubscriptionState {
    /// A flag that says "not subscribed".
    pub fn new() -> (state: SubscriptionState)
        ensures
            !state@,
    {
        SubscriptionState { subscribed: false }
    }

    /// Records whether a subscription is active.
    pub fn set_subscribed(&mut self, subscribed: bool)
        ensures
            final(self)@ == subscribed,
    {
        self.subscribed = subscribed;
    }

    /// The flag as it stands.
    pub fn is_subscribed(&self) -> (subscribed: bool)
        ensures
            subscribed == self@,
    {
        self.subscribed
    }
}

} // verus!
