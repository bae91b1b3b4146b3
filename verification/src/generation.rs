//! Identities that tell a current request from a superseded one.

use vstd::prelude::*;

verus! {

/// The number that follows `number`, wrapping at the end of the integer space.
pub open spec fn successor(number: u64) -> u64 {
    if number == u64::MAX {
        0
    } else {
        (number + 1) as u64
    }
}

/// Identity of one directory-completion request. A later edit advances the
/// generation so an older filesystem result cannot replace current candidates.
#[derive(Debug, Clone, Copy, PartialEq, Eq, Structural)]
pub struct CompletionGeneration {
    /// The request's number.
    pub number: u64,
}

impl CompletionGeneration {
    /// The generation with the given number.
    pub fn new(number: u64) -> (generation: Self)
        ensures
            generation.number == number,
    {
        CompletionGeneration { number }
    }

    /// The value before the first asynchronous completion request.
    pub fn initial() -> (generation: Self)
        ensures
            generation.number == 0,
    {
        CompletionGeneration { number: 0 }
    }

    /// Returns the next request generation, wrapping only after the integer
    /// space is exhausted.
    pub fn next(self) -> (generation: Self)
        ensures
            generation.number == successor(self.number),
    {
        CompletionGeneration { number: self.number.wrapping_add(1) }
    }
}

/// A pending completion request.
#[derive(Debug)]
pub struct CompletionRequest {
    /// The request's generation.
    pub generation: CompletionGeneration,
    /// The path as far as it was typed.
    pub partial: String,
}

/// Returns the newest of the pending requests, given in the order in which they
/// came: later edits make the earlier ones pointless.
pub fn newest_request(pending: Vec<CompletionRequest>) -> (newest: Option<CompletionRequest>)
    ensures
        newest == if pending@.len() > 0 {
            Some(pending@.last())
        } else {
            None
        },
{
    let mut pending: Vec<CompletionRequest> = pending;
    pending.pop()
}

/// A generation always differs from the one it supersedes, and every
/// generation supersedes exactly one other.
pub proof fn successor_is_fresh_and_injective(a: u64, b: u64)
    ensures
        successor(a) != a,
        successor(a) == successor(b) ==> a == b,
{
}

} // verus!
