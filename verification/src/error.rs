//! Failure taxonomy for configuration resolution and plan building.

use vstd::prelude::*;

verus! {

/// A failure surfaced by plan building or one of its lookups. Every failure
/// carries enough context (`what`) to say which lookup, key, region or name
/// was involved. There are no retries anywhere: each error aborts the whole
/// invocation that hit it.
#[derive(Debug)]
pub enum Error {
    /// A lookup found nothing: an empty image map, a region with no entry,
    /// or an image query that returned zero matches.
    NotFound { what: String },
    /// An image query returned more than one match where exactly one is
    /// required.
    Ambiguous { what: String },
    /// A required identity label was missing when querying for existing
    /// resources: a caller/programming defect, not a remote failure.
    InvalidState { what: String },
    /// A template could not be rendered.
    Render { what: String },
    /// A descriptor could not be built from the supplied inputs.
    Build { what: String },
}

impl Error {
    /// The context string carried by the error.
    pub fn what(&self) -> (r: &String)
        ensures
            r@ == self.spec_what(),
    {
        match self {
            Error::NotFound { what } => what,
            Error::Ambiguous { what } => what,
            Error::InvalidState { what } => what,
            Error::Render { what } => what,
            Error::Build { what } => what,
        }
    }

    /// The context string, at the specification level.
    pub open spec fn spec_what(&self) -> Seq<char> {
        match self {
            Error::NotFound { what } => what@,
            Error::Ambiguous { what } => what@,
            Error::InvalidState { what } => what@,
            Error::Render { what } => what@,
            Error::Build { what } => what@,
        }
    }
}

} // verus!
