//! Chooses the representative result among repeated measurement attempts.
//!
//! Policy: the attempt with the maximum overall score wins; ties go to the
//! lowest index, so the choice is deterministic whatever noise the repeated
//! runs carried. A malformed score orders below every measured one (see
//! [`crate::score`]) and is therefore never chosen while a valid attempt
//! exists.

use vstd::prelude::*;

use crate::canonical::CanonicalReport;
use crate::lh_models::AllAttemptReports;
use crate::score::{score_le, score_lt, Score};

verus! {

/// Selection over an empty attempt set is a caller error.
#[derive(Debug, Clone, Copy, PartialEq, Eq, Structural)]
pub enum SelectError {
    EmptyAttemptSet,
}

/// The scores of a sequence of attempts, index for index.
pub open spec fn scores_of(attempts: Seq<CanonicalReport>) -> Seq<Score> {
    attempts.map_values(|r: CanonicalReport| r.overall_score)
}

/// Index `i` names the best attempt: no score exceeds `scores[i]`, and every
/// earlier score is strictly below it, so `i` is the first maximum.
pub open spec fn is_best_index(scores: Seq<Score>, i: int) -> bool {
    &&& 0 <= i < scores.len()
    &&& forall|j: int| 0 <= j < scores.len() ==> score_le(#[trigger] scores[j], scores[i])
    &&& forall|j: int| 0 <= j < i ==> score_lt(#[trigger] scores[j], scores[i])
}

impl AllAttemptReports {
    /// The selection invariant: the index is in range and names the first
    /// attempt with the maximum score, which is the recorded best score.
    pub open spec fn wf(self) -> bool {
        &&& is_best_index(scores_of(self.reports@), self.best_score_index as int)
        &&& self.best_score == scores_of(self.reports@)[self.best_score_index as int]
    }
}

/// Picks the representative attempt: the first one with the maximum score.
///
/// Fails exactly on an empty attempt set; otherwise the result bundles the
/// winning index, the winning score, and the full attempt list for
/// downstream diagnostics.
pub fn select_best(attempts: Vec<CanonicalReport>) -> (r: Result<
    AllAttemptReports,
    SelectError,
>)
    ensures
        attempts@.len() == 0 <==> r == Err::<AllAttemptReports, SelectError>(
            SelectError::EmptyAttemptSet,
        ),
        r matches Ok(all) ==> all.reports@ == attempts@ && all.wf(),
{
    if attempts.len() == 0 {
        return Err(SelectError::EmptyAttemptSet);
    }
    let ghost scores = scores_of(attempts@);
    let mut best_index: usize = 0;
    let mut best_score: Score = attempts[0].overall_score;
    let mut i: usize = 1;
    while i < attempts.len()
        invariant
            scores == scores_of(attempts@),
            1 <= i <= attempts@.len(),
            0 <= best_index < i,
            best_score == scores[best_index as int],
            forall|j: int| 0 <= j < i ==> score_le(#[trigger] scores[j], best_score),
            forall|j: int| 0 <= j < best_index ==> score_lt(#[trigger] scores[j], best_score),
        decreases attempts@.len() - i,
    {
        let candidate = attempts[i].overall_score;
        if !candidate.le(&best_score) {
            best_index = i;
            best_score = candidate;
        }
        i = i + 1;
    }
    Ok(AllAttemptReports { best_score, best_score_index: best_index, reports: attempts })
}

/// The best index is unique: the selection policy leaves no choice open.
pub proof fn lemma_best_index_unique(scores: Seq<Score>, i: int, j: int)
    requires
        is_best_index(scores, i),
        is_best_index(scores, j),
    ensures
        i == j,
{
    if i < j {
        assert(score_lt(scores[i], scores[j]) && score_le(scores[j], scores[i]));
    } else if j < i {
        assert(score_lt(scores[j], scores[i]) && score_le(scores[i], scores[j]));
    }
}

/// A malformed score is never selected while any valid attempt exists: the
/// best index always carries a measured score when one is present at all.
pub proof fn lemma_valid_score_preferred(scores: Seq<Score>, best: int, j: int)
    requires
        is_best_index(scores, best),
        0 <= j < scores.len(),
        scores[j] != Score::Invalid,
    ensures
        scores[best] != Score::Invalid,
{
    assert(score_le(scores[j], scores[best]));
}

} // verus!
