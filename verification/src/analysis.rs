//! The interface shared by the analyses that consume a trace event by event.
use vstd::prelude::*;
use crate::dependency_graph::FullEvent;

verus! {

/// An analysis fed with the events of a trace, in order.
///
/// `ready` is the analysis's own invariant, and `can_process` says which
/// events it can take in its present state.
pub trait EventAnalysis: Sized {
    spec fn ready(&self) -> bool;

    spec fn can_process(&self, event: FullEvent) -> bool;

    /// Resets the analysis; called before any event is processed.
    fn initialize(&mut self)
        ensures
            final(self).ready(),
    ;

    /// Takes one event into account.
    fn process_event(&mut self, event: &FullEvent)
        requires
            old(self).ready(),
            old(self).can_process(*event),
        ensures
            final(self).ready(),
    ;

    /// Called after all events have been processed.
    fn finalize(&mut self)
        requires
            old(self).ready(),
        ensures
            final(self).ready(),
    ;
}

} // verus!
