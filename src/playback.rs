//! The decision taken on each pull, and what a driver that follows those
//! decisions plays back.

use vstd::prelude::*;

verus! {

/// What the caller does after reporting the sample that the live cursor gave.
#[derive(Debug, PartialEq, Eq)]
pub enum Step<T> {
    /// Hand this sample downstream.
    Emit(T),
    /// Replace the live cursor by a fresh copy of the pristine one, pull from
    /// it and report again.
    Rewind,
    /// Playback is over: report the end of the sequence.
    Finish,
}

/// The decision on one pull, with `left` passes still owed (the one in
/// progress included): the new number of passes left, and the action.
pub open spec fn step<T>(left: nat, pulled: Option<T>) -> (nat, Step<T>) {
    if left == 0 {
        (left, Step::Finish)
    } else {
        match pulled {
            Some(v) => (left, Step::Emit(v)),
            None => if left > 1 {
                ((left - 1) as nat, Step::Rewind)
            } else {
                (left, Step::Finish)
            },
        }
    }
}

/// The samples handed downstream by a driver that pulls from a live cursor
/// holding `live`, rewinds to a pristine cursor holding `template`, and follows
/// `step` until it says `Finish`.
pub open spec fn play<T>(left: nat, live: Seq<T>, template: Seq<T>) -> Seq<T>
    decreases left, live.len(),
{
    if left == 0 {
        Seq::empty()
    } else if live.len() > 0 {
        seq![live[0]] + play(left, live.drop_first(), template)
    } else if left > 1 {
        play((left - 1) as nat, template, template)
    } else {
        Seq::empty()
    }
}

/// `s` played `k` times back to back.
pub open spec fn repeated<T>(s: Seq<T>, k: nat) -> Seq<T>
    decreases k,
{
    if k == 0 {
        Seq::empty()
    } else {
        s + repeated(s, (k - 1) as nat)
    }
}

} // verus!
