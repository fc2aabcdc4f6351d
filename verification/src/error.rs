//! Errors shared by the builder, the negotiation step and the elements.

use vstd::prelude::*;

verus! {

/// Every failure the core reports.
///
/// Builder and negotiation failures are precise variants; failures coming
/// out of a backend library inside an element are passed through as
/// [`Error::Backend`] with the backend's own message.
#[derive(Debug)]
pub enum Error {
    /// A link with the identical (kind, source, sink) key already exists.
    DuplicatedLink,
    /// A sink's `add_source` was called more than once on the same instance.
    DuplicatedSource,
    /// A vendor or otherwise unacceptable format was presented at negotiation.
    UnsupportedFormat,
    /// A stateful element was used before its required one-time configuration.
    Unconfigured,
    /// A failure surfaced from a backend library inside an element.
    Backend(String),
}

impl Error {
    /// True exactly for the backend pass-through variant.
    pub open spec fn spec_is_backend(&self) -> bool {
        self matches Error::Backend(_)
    }

    /// True exactly for the backend pass-through variant.
    pub fn is_backend(&self) -> (r: bool)
        ensures
            r == self.spec_is_backend(),
    {
        match self {
            Error::Backend(_) => true,
            _ => false,
        }
    }
}

} // verus!
