use vstd::prelude::*;

verus! {

/// Holds at most the newest value: a new value replaces the one not yet taken.
#[derive(Debug)]
pub struct LatestFrameMailbox<T> {
    value: Option<T>,
}

impl<T> LatestFrameMailbox<T> {
    /// The value waiting to be taken, if any.
    pub closed spec fn content(&self) -> Option<T> {
        self.value
    }

    /// An empty mailbox.
    pub fn new() -> (m: Self)
        ensures
            m.content() is None,
    {
        LatestFrameMailbox { value: None }
    }

    /// Stores `value` and gives back the value it replaced.
    pub fn push(&mut self, value: T) -> (previous: Option<T>)
        ensures
            previous == old(self).content(),
            final(self).content() == Some(value),
    {
        let previous = self.value.take();
        self.value = Some(value);
        previous
    }

    /// Removes and gives back the waiting value.
    pub fn take(&mut self) -> (value: Option<T>)
        ensures
            value == old(self).content(),
            final(self).content() is None,
    {
        self.value.take()
    }

    /// Whether no value is waiting.
    pub fn is_empty(&self) -> (empty: bool)
        ensures
            empty == (self.content() is None),
    {
        self.value.is_none()
    }
}

impl<T> Default for LatestFrameMailbox<T> {
    fn default() -> (m: Self)
        ensures
            m.content() is None,
    {
        LatestFrameMailbox::new()
    }
}

} // verus!
