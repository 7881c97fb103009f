use vstd::prelude::*;

verus! {

/// The error kinds that the library reports.
#[derive(Debug, PartialEq, Eq)]
pub enum BotError {
    /// A client-supplied token is not valid base64.
    Decode,
    /// A token or session is absent.
    NotFound,
    /// The platform reported a failure, or its reply could not be used.
    Upstream(String),
    /// The session store refused a write.
    Storage,
    /// The secure random source failed.
    RandomSource,
}

} // verus!
