//! What a blocked consumer does next.
//!
//! A wait on a word suspends the caller only while the word still holds the
//! value the caller last saw, and it may return without any change. The
//! functions here decide, from the value seen and the value expected, whether
//! a caller sleeps and whether a producer has anyone to wake.

use vstd::prelude::*;

verus! {

/// What a wait on a word does when it is entered.
#[derive(Clone, Copy, Debug, PartialEq, Eq, Structural)]
pub enum WaitOutcome {
    /// The word still holds the expected value: the caller is suspended.
    Suspend,
    /// The word has changed: the wait returns at once.
    Changed,
}

/// The outcome of entering a wait on a word that holds `current` when the
/// caller expects `expected`.
pub open spec fn wait_outcome(current: usize, expected: usize) -> WaitOutcome {
    if current == expected {
        WaitOutcome::Suspend
    } else {
        WaitOutcome::Changed
    }
}

/// Decides whether a caller that expects `expected` is suspended on a word
/// that holds `current`.
pub fn wait(current: usize, expected: usize) -> (outcome: WaitOutcome)
    ensures
        outcome == wait_outcome(current, expected),
{
    if current == expected {
        WaitOutcome::Suspend
    } else {
        WaitOutcome::Changed
    }
}

/// How many of `blocked` suspended callers a single wake releases: one if
/// any is suspended, none otherwise. A wake with nobody blocked is not kept
/// for later.
pub open spec fn woken(blocked: usize) -> usize {
    if blocked > 0 {
        1
    } else {
        0
    }
}

/// Releases at most one of `blocked` suspended callers and returns how many
/// were released.
pub fn wake_one(blocked: usize) -> (released: usize)
    ensures
        released == woken(blocked),
{
    if blocked > 0 {
        1
    } else {
        0
    }
}

} // verus!
