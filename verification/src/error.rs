//! The error taxonomy shared by every resource operation.

use vstd::prelude::*;

verus! {

/// Why an operation on a resource or a scheme did not succeed.
#[derive(Clone, Copy, Debug, PartialEq, Eq, Structural)]
pub enum Error {
    /// A required part of a reference is missing, or the link could not be opened.
    NotFound,
    /// The link failed while reading, writing, duplicating or flushing.
    Io,
    /// A piece of text is not in the form it must have.
    Format,
}

} // verus!
