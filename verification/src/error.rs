//! Errors of the library.

use vstd::prelude::*;

verus! {

/// What can go wrong.
#[derive(Clone, Debug, PartialEq, Eq)]
pub enum Error {
    /// A failure with nothing but a message.
    Generic(String),
    /// The repository has no commit that HEAD points to.
    NoHead,
    /// The repository could not be read; the text is what it said.
    Git(String),
    /// A setting holds a value that is none of those it can have.
    GitConfig(String),
}

} // verus!
