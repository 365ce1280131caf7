//! The three outcomes of polling a consumer handle.

use vstd::prelude::*;

verus! {

/// What a consumer learns from one poll.
#[derive(Debug, PartialEq, Eq)]
pub enum Polled<T> {
    /// A message was available and is handed over.
    Ready(T),
    /// No message is left and no producer remains: the stream has ended.
    Closed,
    /// No message is available yet; the stored resume token fires when that
    /// may have changed.
    Pending,
}

impl<T: Clone> Polled<T> {
    /// `got` is what a poll may return when the stored message is `self`:
    /// the same outcome, with the message possibly cloned.
    pub open spec fn cloned_as(self, got: Polled<T>) -> bool {
        match self {
            Polled::Ready(m) => got matches Polled::Ready(v) && cloned(m, v),
            Polled::Closed => got is Closed,
            Polled::Pending => got is Pending,
        }
    }
}

impl<T> Polled<T> {
    /// The message, if this outcome carries one.
    pub fn into_option(self) -> (r: Option<T>)
        ensures
            r == (match self {
                Polled::Ready(v) => Some(v),
                _ => None,
            }),
    {
        match self {
            Polled::Ready(v) => Some(v),
            _ => None,
        }
    }
}

} // verus!
