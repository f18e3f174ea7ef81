//! Failure reporting: a job error with its chain of causes, and the log
//! lines produced for it.

use vstd::prelude::*;

verus! {

/// An operational failure, carrying the messages of its causal chain:
/// the failure itself, then each underlying cause, outermost first.
pub struct JobError {
    /// What failed.
    pub message: String,
    /// The causes below it, outermost first.
    pub sources: Vec<String>,
}

/// The lines logged for a failed job before it is retried: the error's own
/// message first, then every cause in order. Nothing is dropped.
pub fn print_error(e: &JobError) -> (lines: Vec<String>)
    ensures
        lines@.len() == 1 + e.sources@.len(),
        lines@[0] == e.message,
        forall|i: int| 0 <= i < e.sources@.len() ==> lines@[i + 1] == e.sources@[i],
{
    let mut lines: Vec<String> = Vec::new();
    lines.push(e.message.clone());
    let mut i: usize = 0;
    while i < e.sources.len()
        invariant
            i <= e.sources@.len(),
            lines@.len() == 1 + i,
            lines@[0] == e.message,
            forall|j: int| 0 <= j < i ==> lines@[j + 1] == e.sources@[j],
        decreases e.sources@.len() - i,
    {
        lines.push(e.sources[i].clone());
        i = i + 1;
    }
    lines
}

} // verus!
