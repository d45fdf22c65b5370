//! The decision step of a signal that joins two cells: after both sources
//! are polled once, emit a fresh pair, wait, or end.

use futures_signals::signal::Mutable;
use vstd::prelude::*;
use crate::ty::cell_value;

verus! {

/// What one poll of a source reported.
#[derive(Clone, Copy, PartialEq, Eq, Structural, Debug)]
pub enum Change {
    /// The source has a new value.
    Changed,
    /// Nothing new yet.
    Pending,
    /// The source has ended and will report nothing more.
    Ended,
}

/// What the joined signal reports for one wake.
#[derive(Clone, Copy, PartialEq, Eq, Structural, Debug)]
pub enum JointStep {
    /// Emit the pair of the current values of both cells.
    Emit,
    /// Nothing to report; poll again on the next wake.
    Wait,
    /// Both sources have ended.
    End,
}

pub open spec fn joint_step_spec(left: Change, right: Change) -> JointStep {
    if left == Change::Changed || right == Change::Changed {
        JointStep::Emit
    } else if left == Change::Ended && right == Change::Ended {
        JointStep::End
    } else {
        JointStep::Wait
    }
}

/// Emits when either source changed, ends when both have ended, and waits
/// otherwise.
pub fn joint_step(left: Change, right: Change) -> (r: JointStep)
    ensures
        r == joint_step_spec(left, right),
{
    let changed = left == Change::Changed || right == Change::Changed;
    let left_done = left == Change::Ended;
    let right_done = right == Change::Ended;
    if changed {
        JointStep::Emit
    } else if left_done && right_done {
        JointStep::End
    } else {
        JointStep::Wait
    }
}

/// What the joined signal reports for one wake, with the pair it emits.
#[derive(Clone, Copy, PartialEq, Eq, Debug)]
pub enum JointPoll<T> {
    /// The pair of the current values of both cells.
    Ready(T),
    /// Nothing to report yet.
    Wait,
    /// Both sources have ended.
    End,
}

/// One wake of the joined signal: when either source changed, the pair of
/// the values that both cells hold now, read after both were polled.
pub fn joint_poll<A: Clone, B: Clone>(left: Change, right: Change, a: &Mutable<A>, b: &Mutable<B>) -> (r: JointPoll<(A, B)>)
    ensures
        r is Ready <==> joint_step_spec(left, right) == JointStep::Emit,
        r is Wait <==> joint_step_spec(left, right) == JointStep::Wait,
        r is End <==> joint_step_spec(left, right) == JointStep::End,
{
    match joint_step(left, right) {
        JointStep::Emit => JointPoll::Ready((cell_value(a), cell_value(b))),
        JointStep::Wait => JointPoll::Wait,
        JointStep::End => JointPoll::End,
    }
}

/// The reports of the joined signal over a run of wakes, given what each
/// source reported on each of them.
pub open spec fn joint_run(left: Seq<Change>, right: Seq<Change>) -> Seq<JointStep>
    recommends
        left.len() == right.len(),
{
    Seq::new(left.len(), |i: int| joint_step_spec(left[i], right[i]))
}

/// A source that has ended keeps reporting that it has ended.
pub open spec fn stays_ended(s: Seq<Change>) -> bool {
    forall|i: int, j: int| 0 <= i <= j < s.len() && s[i] == Change::Ended ==> s[j] == Change::Ended
}

/// The joined signal ends only once both sources have ended, and until then
/// it emits on every wake on which either source changed, even after the
/// other one has ended.
pub proof fn lemma_joint_completion(left: Seq<Change>, right: Seq<Change>)
    requires
        left.len() == right.len(),
        stays_ended(left),
        stays_ended(right),
    ensures
        forall|i: int| 0 <= i < left.len() ==>
            (#[trigger] joint_run(left, right)[i] == JointStep::End <==> left[i] == Change::Ended && right[i] == Change::Ended),
        forall|i: int| 0 <= i < left.len() && (left[i] == Change::Changed || right[i] == Change::Changed) ==>
            #[trigger] joint_run(left, right)[i] == JointStep::Emit,
        forall|i: int, j: int| 0 <= i <= j < left.len() && #[trigger] joint_run(left, right)[i] == JointStep::End ==>
            #[trigger] joint_run(left, right)[j] == JointStep::End,
{
}

} // verus!
