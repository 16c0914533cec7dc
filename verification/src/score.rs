//! Fixed-point audit scores with a total order that places malformed
//! (not-a-number) scores below every measured score.

use vstd::prelude::*;

verus! {

/// An overall audit score.
///
/// A measured score lies in `[0, 1]` and is carried in thousandths, so
/// `Val(420)` stands for `0.42`. A score that arrived malformed (for example
/// not a number, or outside `[0, 1]`) is `Invalid`; it orders below every
/// measured score, so it is never preferred to one.
#[derive(Debug, Clone, Copy, PartialEq, Eq, Structural)]
pub enum Score {
    Invalid,
    Val(i64),
}

/// `a` is at most `b`: `Invalid` sits below every measured value.
pub open spec fn score_le(a: Score, b: Score) -> bool {
    match (a, b) {
        (Score::Invalid, _) => true,
        (Score::Val(_), Score::Invalid) => false,
        (Score::Val(x), Score::Val(y)) => x <= y,
    }
}

/// `a` is strictly below `b` in the score order.
pub open spec fn score_lt(a: Score, b: Score) -> bool {
    score_le(a, b) && a != b
}

impl Score {
    /// A measured score in thousandths is well formed when it lies in `[0, 1]`.
    pub open spec fn wf(self) -> bool {
        match self {
            Score::Invalid => true,
            Score::Val(v) => 0 <= v <= 1000,
        }
    }

    /// Decides the total score order, `Invalid` lowest.
    pub fn le(&self, other: &Score) -> (r: bool)
        ensures
            r == score_le(*self, *other),
    {
        match (self, other) {
            (Score::Invalid, _) => true,
            (Score::Val(_), Score::Invalid) => false,
            (Score::Val(x), Score::Val(y)) => *x <= *y,
        }
    }
}

/// The score order is total: any two scores compare one way or the other.
pub proof fn lemma_score_order_total(a: Score, b: Score)
    ensures
        score_le(a, b) || score_le(b, a),
        score_le(a, b) && score_le(b, a) ==> a == b,
{
}

/// The score order is transitive.
pub proof fn lemma_score_order_transitive(a: Score, b: Score, c: Score)
    ensures
        score_le(a, b) && score_le(b, c) ==> score_le(a, c),
{
}

} // verus!
