//! Batch normalization of one run's attempt set.
//!
//! Every raw attempt of a run is normalized independently: a report that
//! fails normalization is dropped with its error and never aborts its
//! sibling attempts. What survives feeds the selector, so selection can fail
//! only when not a single attempt normalized.

use vstd::prelude::*;

use crate::adapter::{normalize, normalize_spec, NormalizationError};
use crate::canonical::{CanonicalReport, CanonicalReportV, NormalizedReport, NormalizedReportV};
use crate::raw::{RawFieldV, RawReport};

verus! {

/// The normalized survivors of an attempt set, in attempt order.
pub open spec fn normalized_attempts_of(
    raws: Seq<Seq<RawFieldV>>,
    declared: Seq<char>,
) -> Seq<NormalizedReportV>
    decreases raws.len(),
{
    if raws.len() == 0 {
        Seq::empty()
    } else {
        let front = normalized_attempts_of(raws.drop_last(), declared);
        match normalize_spec(raws.last(), declared) {
            Ok(n) => front.push(n),
            Err(_) => front,
        }
    }
}

/// The fatal errors of an attempt set, in attempt order.
pub open spec fn attempt_failures_of(
    raws: Seq<Seq<RawFieldV>>,
    declared: Seq<char>,
) -> Seq<NormalizationError>
    decreases raws.len(),
{
    if raws.len() == 0 {
        Seq::empty()
    } else {
        let front = attempt_failures_of(raws.drop_last(), declared);
        match normalize_spec(raws.last(), declared) {
            Ok(_) => front,
            Err(e) => front.push(e),
        }
    }
}

/// Normalizes one run's whole attempt set under its declared tool version.
///
/// Each attempt is isolated: a bad raw report contributes one error and
/// nothing else, and the remaining attempts normalize as if it were not
/// there.
pub fn normalize_attempts(raws: &Vec<RawReport>, declared_version: &str) -> (r: (
    Vec<NormalizedReport>,
    Vec<NormalizationError>,
))
    ensures
        r.0.deep_view() == normalized_attempts_of(raws.deep_view(), declared_version@),
        r.1.deep_view() == attempt_failures_of(raws.deep_view(), declared_version@),
{
    let ghost all = raws.deep_view();
    proof {
        assert(all.subrange(0, 0) =~= Seq::<Seq<RawFieldV>>::empty());
    }
    let mut survivors: Vec<NormalizedReport> = Vec::new();
    let mut failures: Vec<NormalizationError> = Vec::new();
    let mut i: usize = 0;
    while i < raws.len()
        invariant
            all == raws.deep_view(),
            all.len() == raws@.len(),
            0 <= i <= raws@.len(),
            survivors.deep_view() == normalized_attempts_of(
                all.subrange(0, i as int),
                declared_version@,
            ),
            failures.deep_view() == attempt_failures_of(
                all.subrange(0, i as int),
                declared_version@,
            ),
        decreases raws@.len() - i,
    {
        proof {
            assert(all.subrange(0, i + 1).drop_last() =~= all.subrange(0, i as int));
            assert(all.subrange(0, i + 1).last() == all[i as int]);
        }
        match normalize(&raws[i], declared_version) {
            Ok(n) => {
                let ghost before = survivors.deep_view();
                survivors.push(n);
                proof {
                    assert(survivors.deep_view() =~= before.push(survivors@.last().deep_view()));
                }
            },
            Err(e) => {
                let ghost before = failures.deep_view();
                failures.push(e);
                proof {
                    assert(failures.deep_view() =~= before.push(e));
                }
            },
        }
        i = i + 1;
    }
    proof {
        assert(all.subrange(0, i as int) =~= all);
    }
    (survivors, failures)
}

/// Strips the per-section recovery notes off normalized attempts, leaving
/// the canonical reports for the selector.
pub fn reports_of(attempts: Vec<NormalizedReport>) -> (r: Vec<CanonicalReport>)
    ensures
        r.deep_view() == attempts.deep_view().map_values(|n: NormalizedReportV| n.report),
{
    let ghost all = attempts.deep_view();
    let mut rest = attempts;
    let mut out: Vec<CanonicalReport> = Vec::new();
    proof {
        assert(out.deep_view() =~= all.subrange(0, 0).map_values(
            |n: NormalizedReportV| n.report,
        ));
        assert(rest.deep_view() =~= all.subrange(0, all.len() as int));
    }
    while rest.len() > 0
        invariant
            out.deep_view() == all.subrange(
                0,
                all.len() - rest@.len(),
            ).map_values(|n: NormalizedReportV| n.report),
            rest.deep_view() == all.subrange(all.len() - rest@.len(), all.len() as int),
            rest@.len() <= all.len(),
        decreases rest@.len(),
    {
        let ghost k = all.len() - rest@.len();
        let ghost out_before = out.deep_view();
        let ghost rest_before = rest.deep_view();
        let head = rest.remove(0);
        out.push(head.report);
        proof {
            assert(head.deep_view() == rest_before[0]);
            assert(rest_before[0] == all[k]);
            assert(rest.deep_view() =~= rest_before.drop_first());
            assert(rest.deep_view() =~= all.subrange(k + 1, all.len() as int));
            assert(out.deep_view() =~= out_before.push(head.report.deep_view()));
            assert(out.deep_view() =~= all.subrange(0, k + 1).map_values(
                |n: NormalizedReportV| n.report,
            ));
        }
    }
    proof {
        assert(all.subrange(0, all.len() as int) =~= all);
    }
    out
}

/// Selection fails only when nothing normalized: an attempt set has no
/// normalized survivors exactly when every one of its raw reports fails.
pub proof fn lemma_selection_starves_only_without_survivors(
    raws: Seq<Seq<RawFieldV>>,
    declared: Seq<char>,
)
    ensures
        (normalized_attempts_of(raws, declared).len() == 0) <==> (forall|i: int|
            0 <= i < raws.len() ==> (#[trigger] normalize_spec(raws[i], declared)) is Err),
    decreases raws.len(),
{
    if raws.len() > 0 {
        let front = raws.drop_last();
        lemma_selection_starves_only_without_survivors(front, declared);
        assert(forall|i: int| 0 <= i < front.len() ==> front[i] == raws[i]);
        assert(raws.last() == raws[raws.len() - 1]);
    }
}

} // verus!
