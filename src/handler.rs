use vstd::prelude::*;

verus! {

/// The one capability every registrable object offers: react to a readiness
/// notification. State persists between calls; there is no result channel.
pub trait EventHandler: Sized {
    /// Holds when `after` is a state the handler may be left in once it has
    /// handled `event`, starting from `self`. A handler that states nothing
    /// of its effect keeps the default, which admits every state.
    open spec fn handles(self, event: u32, after: Self) -> bool {
        true
    }

    fn handle_event(&mut self, event: u32)
        ensures
            Self::handles(*old(self), event, *final(self)),
    ;
}

} // verus!
