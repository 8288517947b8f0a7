use vstd::prelude::*;

verus! {

/// The two-state result of polling a task or a one-shot wait: either the wait
/// has resolved with its output, or the callee has arranged to be woken later
/// and the caller must poll again. Polling never blocks.
#[derive(Clone, Copy, PartialEq, Eq, Structural, Debug)]
pub enum Poll<T> {
    Ready(T),
    Pending,
}

impl<T> Poll<T> {
    /// Whether the wait has resolved.
    pub open spec fn spec_is_ready(self) -> bool {
        self is Ready
    }

    pub fn is_ready(&self) -> (r: bool)
        ensures
            r == self.spec_is_ready(),
    {
        match self {
            Poll::Ready(_) => true,
            Poll::Pending => false,
        }
    }
}

} // verus!
