//! The repository.

use vstd::prelude::*;

verus! {

/// The repository. Each of its operations is an associated function that takes the operation's
/// input and the replies received so far, and returns what to do next. An operation's
/// conversation is the run of its function on growing prefixes of one log of replies.
pub struct Database {}

} // verus!
