//! Schema adapters: tolerant normalization of raw, version-tagged reports.
//!
//! One adapter per supported tool-version family maps that family's field
//! names onto the canonical model. Selection is by range match on the
//! declared version (any `5.x` picks the v5 adapter, any `6.x` the v6 one);
//! an undeclared family fails with `UnsupportedVersion`. Unknown fields are
//! ignored, never rejected. Each detail section is recovered independently:
//! a malformed section becomes absent and leaves a non-fatal
//! [`RecoverableSectionError`], while a missing required field fails the one
//! report and nothing else.

use vstd::prelude::*;
use vstd::string::StrSliceExecFns;

use crate::canonical::{
    CanonicalReport, CanonicalReportV, CanonicalVitals, NetworkRequestV, NormalizedReport,
    NormalizedReportV, RecoverableSectionError, ResourceV, SectionId, ThirdPartyDetailV,
    ThirdPartyEntityV,
};
use crate::lh_models::{NetworkRequest, Resource, ThirdPartyDetail, ThirdPartyEntity};
use crate::raw::{
    lemma_lookup_push, lookup_cell, lookup_field, RawFieldV, RawReport, RawRow, RawRowV,
    RawScalar, RawScalarV, RawValue, RawValueV,
};
use crate::score::Score;

verus! {

/// The tool-version families this registry has adapters for.
#[derive(Debug, Clone, Copy, PartialEq, Eq, Structural)]
pub enum Version {
    V5,
    V6,
}

/// The required fields of a raw report, named for error reports.
#[derive(Debug, Clone, Copy, PartialEq, Eq, Structural)]
pub enum RequiredField {
    RequestedUrl,
    FinalUrl,
    FetchTime,
    OverallScore,
}

/// Why a whole raw report could not be normalized. Fatal for that one
/// report only; sibling attempts of the same set are unaffected.
#[derive(Debug, Clone, Copy, PartialEq, Eq, Structural)]
pub enum NormalizationError {
    /// No adapter matches the declared tool version.
    UnsupportedVersion,
    /// A field every version must carry is missing or ill-typed.
    MissingRequiredField(RequiredField),
}

impl DeepView for NormalizationError {
    type V = NormalizationError;

    open spec fn deep_view(&self) -> NormalizationError {
        *self
    }
}

/// The declared version names major family `c`: it is `"c"` or `"c. ..."`.
pub open spec fn selects_major(v: Seq<char>, c: char) -> bool {
    (v.len() == 1 && v[0] == c) || (v.len() >= 2 && v[0] == c && v[1] == '.')
}

/// Which adapter a declared version selects, if any.
pub open spec fn version_of(v: Seq<char>) -> Option<Version> {
    if selects_major(v, '5') {
        Some(Version::V5)
    } else if selects_major(v, '6') {
        Some(Version::V6)
    } else {
        None
    }
}

/// Selects the adapter for a declared tool version.
pub fn adapter_for(declared: &str) -> (r: Option<Version>)
    ensures
        r == version_of(declared@),
{
    let n = declared.unicode_len();
    if n == 0 {
        return None;
    }
    let c0 = declared.get_char(0);
    if c0 != '5' && c0 != '6' {
        return None;
    }
    if n >= 2 && declared.get_char(1) != '.' {
        return None;
    }
    if c0 == '5' {
        Some(Version::V5)
    } else {
        Some(Version::V6)
    }
}

pub open spec fn requested_url_key() -> Seq<char> {
    "requestedUrl"@
}

pub open spec fn final_url_key() -> Seq<char> {
    "finalUrl"@
}

pub open spec fn fetch_time_key() -> Seq<char> {
    "fetchTime"@
}

pub open spec fn overall_score_key() -> Seq<char> {
    "performance-score"@
}

pub open spec fn throttling_method_key() -> Seq<char> {
    "throttlingMethod"@
}

pub open spec fn form_factor_key() -> Seq<char> {
    "emulatedFormFactor"@
}

pub open spec fn resource_summary_key() -> Seq<char> {
    "resource-summary"@
}

pub open spec fn network_requests_key() -> Seq<char> {
    "network-requests"@
}

pub open spec fn third_party_key() -> Seq<char> {
    "third-party-summary"@
}

pub open spec fn fcp_key() -> Seq<char> {
    "first-contentful-paint"@
}

/// The one metric the families name differently: v5 reports carry the speed
/// index under a legacy key, v6 reports under the renamed one.
pub open spec fn speed_index_key(v: Version) -> Seq<char> {
    match v {
        Version::V5 => "speed-index-metric"@,
        Version::V6 => "speed-index"@,
    }
}

pub open spec fn lcp_key() -> Seq<char> {
    "largest-contentful-paint"@
}

pub open spec fn interactive_key() -> Seq<char> {
    "interactive"@
}

pub open spec fn tbt_key() -> Seq<char> {
    "total-blocking-time"@
}

pub open spec fn cls_key() -> Seq<char> {
    "cumulative-layout-shift"@
}

pub open spec fn max_fid_key() -> Seq<char> {
    "max-potential-fid"@
}

pub open spec fn fmp_key() -> Seq<char> {
    "first-meaningful-paint"@
}

pub open spec fn fci_key() -> Seq<char> {
    "first-cpu-idle"@
}

/// The keys an adapter reads; every other key is ignored.
pub open spec fn recognized_key(v: Version, k: Seq<char>) -> bool {
    ||| k == requested_url_key()
    ||| k == final_url_key()
    ||| k == fetch_time_key()
    ||| k == overall_score_key()
    ||| k == throttling_method_key()
    ||| k == form_factor_key()
    ||| k == resource_summary_key()
    ||| k == network_requests_key()
    ||| k == third_party_key()
    ||| k == fcp_key()
    ||| k == speed_index_key(v)
    ||| k == lcp_key()
    ||| k == interactive_key()
    ||| k == tbt_key()
    ||| k == cls_key()
    ||| k == max_fid_key()
    ||| k == fmp_key()
    ||| k == fci_key()
}

/// The text under `key`, when the field is there and is text.
pub open spec fn text_at(fields: Seq<RawFieldV>, key: Seq<char>) -> Option<Seq<char>> {
    match lookup_field(fields, key) {
        Some(RawValueV::Text(s)) => Some(s),
        _ => None,
    }
}

/// The text under `key`, or empty when the field is absent or ill-typed.
pub open spec fn text_or_empty(fields: Seq<RawFieldV>, key: Seq<char>) -> Seq<char> {
    match text_at(fields, key) {
        Some(s) => s,
        None => Seq::empty(),
    }
}

/// The metric value under `key`: absent unless the field is a number.
pub open spec fn metric_at(fields: Seq<RawFieldV>, key: Seq<char>) -> Option<i64> {
    match lookup_field(fields, key) {
        Some(RawValueV::Number(n)) => Some(n),
        _ => None,
    }
}

/// The score under `key`. A missing field is `None`; a number outside
/// `[0, 1]` or a value of another type is a malformed score, kept as
/// `Invalid` so that selection orders it lowest.
pub open spec fn score_at(fields: Seq<RawFieldV>, key: Seq<char>) -> Option<Score> {
    match lookup_field(fields, key) {
        None => None,
        Some(RawValueV::Number(n)) => Some(
            if 0 <= n <= 1000 {
                Score::Val(n)
            } else {
                Score::Invalid
            },
        ),
        Some(_) => Some(Score::Invalid),
    }
}

/// The canonical web vitals an adapter reads out of a raw report.
pub open spec fn vitals_of(fields: Seq<RawFieldV>, v: Version) -> CanonicalVitals {
    CanonicalVitals {
        first_contentful_paint: metric_at(fields, fcp_key()),
        speed_index: metric_at(fields, speed_index_key(v)),
        largest_contentful_paint: metric_at(fields, lcp_key()),
        interactive: metric_at(fields, interactive_key()),
        total_blocking_time: metric_at(fields, tbt_key()),
        cumulative_layout_shift: metric_at(fields, cls_key()),
        max_potential_fid: metric_at(fields, max_fid_key()),
        first_meaningful_paint: metric_at(fields, fmp_key()),
        first_cpu_idle: metric_at(fields, fci_key()),
    }
}

/// One resource-summary row, when all its required cells are well formed.
pub open spec fn resource_of_row(row: RawRowV) -> Option<ResourceV> {
    match (
        lookup_cell(row.cells, "resourceType"@),
        lookup_cell(row.cells, "label"@),
        lookup_cell(row.cells, "requestCount"@),
    ) {
        (
            Some(RawScalarV::Text(t)),
            Some(RawScalarV::Text(l)),
            Some(RawScalarV::Number(c)),
        ) => if i32::MIN as i64 <= c <= i32::MAX as i64 {
            Some(
                ResourceV {
                    resource_type: t,
                    label: l,
                    request_count: c as i32,
                    transfer_size: match lookup_cell(row.cells, "transferSize"@) {
                        Some(RawScalarV::Number(n)) => Some(n),
                        _ => None,
                    },
                },
            )
        } else {
            None
        },
        _ => None,
    }
}

/// All resource-summary rows, or `None` as soon as one is malformed.
pub open spec fn resources_of_rows(rows: Seq<RawRowV>) -> Option<Seq<ResourceV>>
    decreases rows.len(),
{
    if rows.len() == 0 {
        Some(Seq::empty())
    } else {
        match resources_of_rows(rows.drop_last()) {
            None => None,
            Some(front) => match resource_of_row(rows.last()) {
                None => None,
                Some(r) => Some(front.push(r)),
            },
        }
    }
}

/// One network-requests row, when all its required cells are well formed.
pub open spec fn request_of_row(row: RawRowV) -> Option<NetworkRequestV> {
    match (
        lookup_cell(row.cells, "url"@),
        lookup_cell(row.cells, "resourceSize"@),
        lookup_cell(row.cells, "statusCode"@),
        lookup_cell(row.cells, "mimeType"@),
    ) {
        (
            Some(RawScalarV::Text(u)),
            Some(RawScalarV::Number(size)),
            Some(RawScalarV::Number(status)),
            Some(RawScalarV::Text(mime)),
        ) => if i16::MIN as i64 <= status <= i16::MAX as i64 {
            Some(
                NetworkRequestV {
                    url: u,
                    start_time: match lookup_cell(row.cells, "startTime"@) {
                        Some(RawScalarV::Number(n)) => Some(n),
                        _ => None,
                    },
                    end_time: match lookup_cell(row.cells, "endTime"@) {
                        Some(RawScalarV::Number(n)) => Some(n),
                        _ => None,
                    },
                    finished: match lookup_cell(row.cells, "finished"@) {
                        Some(RawScalarV::Flag(b)) => Some(b),
                        _ => None,
                    },
                    transfer_size: match lookup_cell(row.cells, "transferSize"@) {
                        Some(RawScalarV::Number(n)) => Some(n),
                        _ => None,
                    },
                    resource_size: size,
                    status_code: status as i16,
                    mime_type: mime,
                    resource_type: match lookup_cell(row.cells, "resourceType"@) {
                        Some(RawScalarV::Text(t)) => Some(t),
                        _ => None,
                    },
                },
            )
        } else {
            None
        },
        _ => None,
    }
}

/// All network-requests rows, or `None` as soon as one is malformed.
pub open spec fn requests_of_rows(rows: Seq<RawRowV>) -> Option<Seq<NetworkRequestV>>
    decreases rows.len(),
{
    if rows.len() == 0 {
        Some(Seq::empty())
    } else {
        match requests_of_rows(rows.drop_last()) {
            None => None,
            Some(front) => match request_of_row(rows.last()) {
                None => None,
                Some(r) => Some(front.push(r)),
            },
        }
    }
}

/// One third-party-summary row, when all its required cells are well formed.
pub open spec fn third_party_of_row(row: RawRowV) -> Option<ThirdPartyDetailV> {
    match (
        lookup_cell(row.cells, "entityType"@),
        lookup_cell(row.cells, "entityText"@),
        lookup_cell(row.cells, "entityUrl"@),
    ) {
        (
            Some(RawScalarV::Text(kind)),
            Some(RawScalarV::Text(label)),
            Some(RawScalarV::Text(origin)),
        ) => match (
            lookup_cell(row.cells, "transferSize"@),
            lookup_cell(row.cells, "mainThreadTime"@),
            lookup_cell(row.cells, "blockingTime"@),
        ) {
            (
                Some(RawScalarV::Number(size)),
                Some(RawScalarV::Number(main_thread)),
                Some(RawScalarV::Number(blocking)),
            ) => Some(
                ThirdPartyDetailV {
                    entity: ThirdPartyEntityV { entity_type: kind, text: label, url: origin },
                    transfer_size: size,
                    main_thread_time: main_thread,
                    blocking_time: blocking,
                },
            ),
            _ => None,
        },
        _ => None,
    }
}

/// All third-party-summary rows, or `None` as soon as one is malformed.
pub open spec fn third_parties_of_rows(rows: Seq<RawRowV>) -> Option<Seq<ThirdPartyDetailV>>
    decreases rows.len(),
{
    if rows.len() == 0 {
        Some(Seq::empty())
    } else {
        match third_parties_of_rows(rows.drop_last()) {
            None => None,
            Some(front) => match third_party_of_row(rows.last()) {
                None => None,
                Some(r) => Some(front.push(r)),
            },
        }
    }
}

/// The recovered resource-summary section, absent when missing or malformed.
pub open spec fn resource_section_of(fields: Seq<RawFieldV>) -> Option<Seq<ResourceV>> {
    match lookup_field(fields, resource_summary_key()) {
        Some(RawValueV::Rows(rows)) => resources_of_rows(rows),
        _ => None,
    }
}

/// Whether recovering the resource-summary section failed (present but
/// malformed); a merely missing section is no failure.
pub open spec fn resource_section_failed(fields: Seq<RawFieldV>) -> bool {
    match lookup_field(fields, resource_summary_key()) {
        None => false,
        Some(RawValueV::Rows(rows)) => resources_of_rows(rows) is None,
        Some(_) => true,
    }
}

/// The recovered network-requests section, absent when missing or malformed.
pub open spec fn network_section_of(fields: Seq<RawFieldV>) -> Option<Seq<NetworkRequestV>> {
    match lookup_field(fields, network_requests_key()) {
        Some(RawValueV::Rows(rows)) => requests_of_rows(rows),
        _ => None,
    }
}

/// Whether recovering the network-requests section failed.
pub open spec fn network_section_failed(fields: Seq<RawFieldV>) -> bool {
    match lookup_field(fields, network_requests_key()) {
        None => false,
        Some(RawValueV::Rows(rows)) => requests_of_rows(rows) is None,
        Some(_) => true,
    }
}

/// The recovered third-party-summary section, absent when missing or
/// malformed.
pub open spec fn third_party_section_of(fields: Seq<RawFieldV>) -> Option<Seq<ThirdPartyDetailV>> {
    match lookup_field(fields, third_party_key()) {
        Some(RawValueV::Rows(rows)) => third_parties_of_rows(rows),
        _ => None,
    }
}

/// Whether recovering the third-party-summary section failed.
pub open spec fn third_party_section_failed(fields: Seq<RawFieldV>) -> bool {
    match lookup_field(fields, third_party_key()) {
        None => false,
        Some(RawValueV::Rows(rows)) => third_parties_of_rows(rows) is None,
        Some(_) => true,
    }
}

/// The non-fatal section errors a normalization leaves, in section order.
pub open spec fn section_errors_of(fields: Seq<RawFieldV>) -> Seq<RecoverableSectionError> {
    let from_resources = if resource_section_failed(fields) {
        seq![RecoverableSectionError { section: SectionId::ResourceSummary }]
    } else {
        Seq::empty()
    };
    let from_requests = if network_section_failed(fields) {
        seq![RecoverableSectionError { section: SectionId::NetworkRequests }]
    } else {
        Seq::empty()
    };
    let from_third_parties = if third_party_section_failed(fields) {
        seq![RecoverableSectionError { section: SectionId::ThirdPartySummary }]
    } else {
        Seq::empty()
    };
    from_resources + from_requests + from_third_parties
}

/// What normalization returns, as a function of the raw fields and the
/// declared version alone.
pub open spec fn normalize_spec(fields: Seq<RawFieldV>, declared: Seq<char>) -> Result<
    NormalizedReportV,
    NormalizationError,
> {
    match version_of(declared) {
        None => Err(NormalizationError::UnsupportedVersion),
        Some(v) => match text_at(fields, requested_url_key()) {
            None => Err(NormalizationError::MissingRequiredField(RequiredField::RequestedUrl)),
            Some(requested) => match text_at(fields, final_url_key()) {
                None => Err(NormalizationError::MissingRequiredField(RequiredField::FinalUrl)),
                Some(reached) => match text_at(fields, fetch_time_key()) {
                    None => Err(
                        NormalizationError::MissingRequiredField(RequiredField::FetchTime),
                    ),
                    Some(fetched) => match score_at(fields, overall_score_key()) {
                        None => Err(
                            NormalizationError::MissingRequiredField(RequiredField::OverallScore),
                        ),
                        Some(score) => Ok(
                            NormalizedReportV {
                                report: CanonicalReportV {
                                    lighthouse_version: declared,
                                    requested_url: requested,
                                    final_url: reached,
                                    fetch_time: fetched,
                                    overall_score: score,
                                    web_vitals: vitals_of(fields, v),
                                    throttling_method: text_or_empty(
                                        fields,
                                        throttling_method_key(),
                                    ),
                                    emulated_form_factor: text_or_empty(fields, form_factor_key()),
                                    resource_summary: resource_section_of(fields),
                                    network_requests: network_section_of(fields),
                                    third_party_summary: third_party_section_of(fields),
                                },
                                section_errors: section_errors_of(fields),
                            },
                        ),
                    },
                },
            },
        },
    }
}

/// The text under `key`, cloned out of the report.
fn get_text(raw: &RawReport, key: &str) -> (r: Option<String>)
    ensures
        match r {
            Some(s) => text_at(raw.deep_view(), key@) == Some(s@),
            None => text_at(raw.deep_view(), key@) is None,
        },
{
    let k = key.to_owned();
    match raw.find(&k) {
        Some(RawValue::Text(s)) => Some(s.clone()),
        _ => None,
    }
}

/// The text under `key`, or the empty string when absent or ill-typed.
fn get_text_or_empty(raw: &RawReport, key: &str) -> (r: String)
    ensures
        r@ == text_or_empty(raw.deep_view(), key@),
{
    match get_text(raw, key) {
        Some(s) => s,
        None => String::new(),
    }
}

/// The metric under `key`, when the field is there and is a number.
fn get_metric(raw: &RawReport, key: &str) -> (r: Option<i64>)
    ensures
        r == metric_at(raw.deep_view(), key@),
{
    let k = key.to_owned();
    match raw.find(&k) {
        Some(RawValue::Number(n)) => Some(*n),
        _ => None,
    }
}

/// The score under `key`; a present but malformed value is `Invalid`.
fn get_score(raw: &RawReport, key: &str) -> (r: Option<Score>)
    ensures
        r == score_at(raw.deep_view(), key@),
{
    let k = key.to_owned();
    match raw.find(&k) {
        None => None,
        Some(RawValue::Number(n)) => if 0 <= *n && *n <= 1000 {
            Some(Score::Val(*n))
        } else {
            Some(Score::Invalid)
        },
        Some(_) => Some(Score::Invalid),
    }
}

/// Parses one resource-summary row.
fn parse_resource_row(row: &RawRow) -> (r: Option<Resource>)
    ensures
        r.deep_view() == resource_of_row(row.deep_view()),
{
    let resource_type = match row.find_cell(&"resourceType".to_owned()) {
        Some(RawScalar::Text(s)) => s.clone(),
        _ => return None,
    };
    let label = match row.find_cell(&"label".to_owned()) {
        Some(RawScalar::Text(s)) => s.clone(),
        _ => return None,
    };
    let count_raw = match row.find_cell(&"requestCount".to_owned()) {
        Some(RawScalar::Number(n)) => *n,
        _ => return None,
    };
    if count_raw < i32::MIN as i64 || count_raw > i32::MAX as i64 {
        return None;
    }
    let transfer_size = match row.find_cell(&"transferSize".to_owned()) {
        Some(RawScalar::Number(n)) => Some(*n),
        _ => None,
    };
    Some(
        Resource {
            resource_type,
            label,
            request_count: count_raw as i32,
            transfer_size,
        },
    )
}

/// Parses one network-requests row.
fn parse_request_row(row: &RawRow) -> (r: Option<NetworkRequest>)
    ensures
        r.deep_view() == request_of_row(row.deep_view()),
{
    let url = match row.find_cell(&"url".to_owned()) {
        Some(RawScalar::Text(s)) => s.clone(),
        _ => return None,
    };
    let resource_size = match row.find_cell(&"resourceSize".to_owned()) {
        Some(RawScalar::Number(n)) => *n,
        _ => return None,
    };
    let status_raw = match row.find_cell(&"statusCode".to_owned()) {
        Some(RawScalar::Number(n)) => *n,
        _ => return None,
    };
    let mime_type = match row.find_cell(&"mimeType".to_owned()) {
        Some(RawScalar::Text(s)) => s.clone(),
        _ => return None,
    };
    if status_raw < i16::MIN as i64 || status_raw > i16::MAX as i64 {
        return None;
    }
    let start_time = match row.find_cell(&"startTime".to_owned()) {
        Some(RawScalar::Number(n)) => Some(*n),
        _ => None,
    };
    let end_time = match row.find_cell(&"endTime".to_owned()) {
        Some(RawScalar::Number(n)) => Some(*n),
        _ => None,
    };
    let finished = match row.find_cell(&"finished".to_owned()) {
        Some(RawScalar::Flag(b)) => Some(*b),
        _ => None,
    };
    let transfer_size = match row.find_cell(&"transferSize".to_owned()) {
        Some(RawScalar::Number(n)) => Some(*n),
        _ => None,
    };
    let resource_type = match row.find_cell(&"resourceType".to_owned()) {
        Some(RawScalar::Text(s)) => Some(s.clone()),
        _ => None,
    };
    Some(
        NetworkRequest {
            url,
            start_time,
            end_time,
            finished,
            transfer_size,
            resource_size,
            status_code: status_raw as i16,
            mime_type,
            resource_type,
        },
    )
}

/// Parses one third-party-summary row.
fn parse_third_party_row(row: &RawRow) -> (r: Option<ThirdPartyDetail>)
    ensures
        r.deep_view() == third_party_of_row(row.deep_view()),
{
    let entity_type = match row.find_cell(&"entityType".to_owned()) {
        Some(RawScalar::Text(s)) => s.clone(),
        _ => return None,
    };
    let text = match row.find_cell(&"entityText".to_owned()) {
        Some(RawScalar::Text(s)) => s.clone(),
        _ => return None,
    };
    let url = match row.find_cell(&"entityUrl".to_owned()) {
        Some(RawScalar::Text(s)) => s.clone(),
        _ => return None,
    };
    let transfer_size = match row.find_cell(&"transferSize".to_owned()) {
        Some(RawScalar::Number(n)) => *n,
        _ => return None,
    };
    let main_thread_time = match row.find_cell(&"mainThreadTime".to_owned()) {
        Some(RawScalar::Number(n)) => *n,
        _ => return None,
    };
    let blocking_time = match row.find_cell(&"blockingTime".to_owned()) {
        Some(RawScalar::Number(n)) => *n,
        _ => return None,
    };
    Some(
        ThirdPartyDetail {
            entity: ThirdPartyEntity { entity_type, text, url },
            transfer_size,
            main_thread_time,
            blocking_time,
        },
    )
}

/// Parses a whole resource-summary table; `None` when any row is malformed.
fn parse_resource_rows(rows: &Vec<RawRow>) -> (r: Option<Vec<Resource>>)
    ensures
        match r {
            Some(items) => resources_of_rows(rows.deep_view()) == Some(items.deep_view()),
            None => resources_of_rows(rows.deep_view()) is None,
        },
{
    let ghost all = rows.deep_view();
    proof {
        assert(all.subrange(0, 0) =~= Seq::<RawRowV>::empty());
    }
    let mut out: Vec<Resource> = Vec::new();
    let mut ok = true;
    let mut i: usize = 0;
    while i < rows.len()
        invariant
            all == rows.deep_view(),
            all.len() == rows@.len(),
            0 <= i <= rows@.len(),
            ok ==> resources_of_rows(all.subrange(0, i as int)) == Some(out.deep_view()),
            !ok ==> resources_of_rows(all.subrange(0, i as int)) is None,
        decreases rows@.len() - i,
    {
        proof {
            assert(all.subrange(0, i + 1).drop_last() =~= all.subrange(0, i as int));
            assert(all.subrange(0, i + 1).last() == all[i as int]);
        }
        if ok {
            match parse_resource_row(&rows[i]) {
                Some(res) => {
                    let ghost before = out.deep_view();
                    out.push(res);
                    proof {
                        assert(out.deep_view() =~= before.push(res.deep_view()));
                    }
                },
                None => {
                    ok = false;
                },
            }
        }
        i = i + 1;
    }
    proof {
        assert(all.subrange(0, i as int) =~= all);
    }
    if ok {
        Some(out)
    } else {
        None
    }
}

/// Parses a whole network-requests table; `None` when any row is malformed.
fn parse_request_rows(rows: &Vec<RawRow>) -> (r: Option<Vec<NetworkRequest>>)
    ensures
        match r {
            Some(items) => requests_of_rows(rows.deep_view()) == Some(items.deep_view()),
            None => requests_of_rows(rows.deep_view()) is None,
        },
{
    let ghost all = rows.deep_view();
    proof {
        assert(all.subrange(0, 0) =~= Seq::<RawRowV>::empty());
    }
    let mut out: Vec<NetworkRequest> = Vec::new();
    let mut ok = true;
    let mut i: usize = 0;
    while i < rows.len()
        invariant
            all == rows.deep_view(),
            all.len() == rows@.len(),
            0 <= i <= rows@.len(),
            ok ==> requests_of_rows(all.subrange(0, i as int)) == Some(out.deep_view()),
            !ok ==> requests_of_rows(all.subrange(0, i as int)) is None,
        decreases rows@.len() - i,
    {
        proof {
            assert(all.subrange(0, i + 1).drop_last() =~= all.subrange(0, i as int));
            assert(all.subrange(0, i + 1).last() == all[i as int]);
        }
        if ok {
            match parse_request_row(&rows[i]) {
                Some(res) => {
                    let ghost before = out.deep_view();
                    out.push(res);
                    proof {
                        assert(out.deep_view() =~= before.push(res.deep_view()));
                    }
                },
                None => {
                    ok = false;
                },
            }
        }
        i = i + 1;
    }
    proof {
        assert(all.subrange(0, i as int) =~= all);
    }
    if ok {
        Some(out)
    } else {
        None
    }
}

/// Recovers the resource-summary section: its value, and whether a present
/// section had to be dropped as malformed.
fn parse_resource_section(raw: &RawReport) -> (r: (Option<Vec<Resource>>, bool))
    ensures
        match r.0 {
            Some(items) => resource_section_of(raw.deep_view()) == Some(items.deep_view()),
            None => resource_section_of(raw.deep_view()) is None,
        },
        r.1 == resource_section_failed(raw.deep_view()),
{
    match raw.find(&"resource-summary".to_owned()) {
        None => (None, false),
        Some(RawValue::Rows(rows)) => match parse_resource_rows(rows) {
            Some(items) => (Some(items), false),
            None => (None, true),
        },
        Some(_) => (None, true),
    }
}

/// Recovers the network-requests section, as for the resource summary.
fn parse_network_section(raw: &RawReport) -> (r: (Option<Vec<NetworkRequest>>, bool))
    ensures
        match r.0 {
            Some(items) => network_section_of(raw.deep_view()) == Some(items.deep_view()),
            None => network_section_of(raw.deep_view()) is None,
        },
        r.1 == network_section_failed(raw.deep_view()),
{
    match raw.find(&"network-requests".to_owned()) {
        None => (None, false),
        Some(RawValue::Rows(rows)) => match parse_request_rows(rows) {
            Some(items) => (Some(items), false),
            None => (None, true),
        },
        Some(_) => (None, true),
    }
}

/// Parses a whole third-party-summary table; `None` when any row is
/// malformed.
fn parse_third_party_rows(rows: &Vec<RawRow>) -> (r: Option<Vec<ThirdPartyDetail>>)
    ensures
        match r {
            Some(items) => third_parties_of_rows(rows.deep_view()) == Some(items.deep_view()),
            None => third_parties_of_rows(rows.deep_view()) is None,
        },
{
    let ghost all = rows.deep_view();
    proof {
        assert(all.subrange(0, 0) =~= Seq::<RawRowV>::empty());
    }
    let mut out: Vec<ThirdPartyDetail> = Vec::new();
    let mut ok = true;
    let mut i: usize = 0;
    while i < rows.len()
        invariant
            all == rows.deep_view(),
            all.len() == rows@.len(),
            0 <= i <= rows@.len(),
            ok ==> third_parties_of_rows(all.subrange(0, i as int)) == Some(out.deep_view()),
            !ok ==> third_parties_of_rows(all.subrange(0, i as int)) is None,
        decreases rows@.len() - i,
    {
        proof {
            assert(all.subrange(0, i + 1).drop_last() =~= all.subrange(0, i as int));
            assert(all.subrange(0, i + 1).last() == all[i as int]);
        }
        if ok {
            match parse_third_party_row(&rows[i]) {
                Some(res) => {
                    let ghost before = out.deep_view();
                    out.push(res);
                    proof {
                        assert(out.deep_view() =~= before.push(res.deep_view()));
                    }
                },
                None => {
                    ok = false;
                },
            }
        }
        i = i + 1;
    }
    proof {
        assert(all.subrange(0, i as int) =~= all);
    }
    if ok {
        Some(out)
    } else {
        None
    }
}

/// Recovers the third-party-summary section, as for the resource summary.
fn parse_third_party_section(raw: &RawReport) -> (r: (Option<Vec<ThirdPartyDetail>>, bool))
    ensures
        match r.0 {
            Some(items) => third_party_section_of(raw.deep_view()) == Some(items.deep_view()),
            None => third_party_section_of(raw.deep_view()) is None,
        },
        r.1 == third_party_section_failed(raw.deep_view()),
{
    match raw.find(&"third-party-summary".to_owned()) {
        None => (None, false),
        Some(RawValue::Rows(rows)) => match parse_third_party_rows(rows) {
            Some(items) => (Some(items), false),
            None => (None, true),
        },
        Some(_) => (None, true),
    }
}

/// Normalizes one raw report under its declared tool version.
///
/// Exactly [`normalize_spec`] decides the outcome: an unsupported version or
/// a missing required field fails the report; everything else, section
/// mishaps included, yields a canonical report.
pub fn normalize(raw: &RawReport, declared_version: &str) -> (r: Result<
    NormalizedReport,
    NormalizationError,
>)
    ensures
        match r {
            Ok(n) => normalize_spec(raw.deep_view(), declared_version@) == Ok::<
                NormalizedReportV,
                NormalizationError,
            >(n.deep_view()),
            Err(e) => normalize_spec(raw.deep_view(), declared_version@) == Err::<
                NormalizedReportV,
                NormalizationError,
            >(e),
        },
{
    let version = match adapter_for(declared_version) {
        None => return Err(NormalizationError::UnsupportedVersion),
        Some(v) => v,
    };
    let requested_url = match get_text(raw, "requestedUrl") {
        None => return Err(NormalizationError::MissingRequiredField(RequiredField::RequestedUrl)),
        Some(s) => s,
    };
    let final_url = match get_text(raw, "finalUrl") {
        None => return Err(NormalizationError::MissingRequiredField(RequiredField::FinalUrl)),
        Some(s) => s,
    };
    let fetch_time = match get_text(raw, "fetchTime") {
        None => return Err(NormalizationError::MissingRequiredField(RequiredField::FetchTime)),
        Some(s) => s,
    };
    let overall_score = match get_score(raw, "performance-score") {
        None => return Err(NormalizationError::MissingRequiredField(RequiredField::OverallScore)),
        Some(s) => s,
    };
    let speed_index = match version {
        Version::V5 => get_metric(raw, "speed-index-metric"),
        Version::V6 => get_metric(raw, "speed-index"),
    };
    let web_vitals = CanonicalVitals {
        first_contentful_paint: get_metric(raw, "first-contentful-paint"),
        speed_index,
        largest_contentful_paint: get_metric(raw, "largest-contentful-paint"),
        interactive: get_metric(raw, "interactive"),
        total_blocking_time: get_metric(raw, "total-blocking-time"),
        cumulative_layout_shift: get_metric(raw, "cumulative-layout-shift"),
        max_potential_fid: get_metric(raw, "max-potential-fid"),
        first_meaningful_paint: get_metric(raw, "first-meaningful-paint"),
        first_cpu_idle: get_metric(raw, "first-cpu-idle"),
    };
    let (resource_summary, resources_failed) = parse_resource_section(raw);
    let (network_requests, requests_failed) = parse_network_section(raw);
    let (third_party_summary, third_parties_failed) = parse_third_party_section(raw);
    let mut section_errors: Vec<RecoverableSectionError> = Vec::new();
    if resources_failed {
        section_errors.push(RecoverableSectionError { section: SectionId::ResourceSummary });
    }
    if requests_failed {
        section_errors.push(RecoverableSectionError { section: SectionId::NetworkRequests });
    }
    if third_parties_failed {
        section_errors.push(RecoverableSectionError { section: SectionId::ThirdPartySummary });
    }
    proof {
        assert(section_errors.deep_view() =~= section_errors_of(raw.deep_view()));
    }
    let report = CanonicalReport {
        lighthouse_version: declared_version.to_owned(),
        requested_url,
        final_url,
        fetch_time,
        overall_score,
        web_vitals,
        throttling_method: get_text_or_empty(raw, "throttlingMethod"),
        emulated_form_factor: get_text_or_empty(raw, "emulatedFormFactor"),
        resource_summary,
        network_requests,
        third_party_summary,
    };
    Ok(NormalizedReport { report, section_errors })
}

/// Every normalized overall score is well formed: a measured value lies in
/// `[0, 1]`, and anything else was kept as `Invalid`.
pub proof fn lemma_normalized_score_wf(fields: Seq<RawFieldV>, declared: Seq<char>)
    ensures
        match normalize_spec(fields, declared) {
            Ok(n) => n.report.overall_score.wf(),
            Err(_) => true,
        },
{
}

/// Normalization is deterministic: identical raw input under an identical
/// declared version normalizes to a structurally equal outcome.
pub proof fn lemma_normalize_deterministic(
    fields1: Seq<RawFieldV>,
    declared1: Seq<char>,
    fields2: Seq<RawFieldV>,
    declared2: Seq<char>,
)
    requires
        fields1 == fields2,
        declared1 == declared2,
    ensures
        normalize_spec(fields1, declared1) == normalize_spec(fields2, declared2),
{
}

/// A field appended under a key the selected adapter does not recognize
/// changes nothing in the normalized outcome.
pub proof fn lemma_unknown_field_ignored(
    fields: Seq<RawFieldV>,
    extra: RawFieldV,
    declared: Seq<char>,
)
    requires
        match version_of(declared) {
            Some(v) => !recognized_key(v, extra.key),
            None => true,
        },
    ensures
        normalize_spec(fields.push(extra), declared) == normalize_spec(fields, declared),
{
    match version_of(declared) {
        None => {
        },
        Some(v) => {
            lemma_lookup_push(fields, extra, requested_url_key());
            lemma_lookup_push(fields, extra, final_url_key());
            lemma_lookup_push(fields, extra, fetch_time_key());
            lemma_lookup_push(fields, extra, overall_score_key());
            lemma_lookup_push(fields, extra, throttling_method_key());
            lemma_lookup_push(fields, extra, form_factor_key());
            lemma_lookup_push(fields, extra, resource_summary_key());
            lemma_lookup_push(fields, extra, network_requests_key());
            lemma_lookup_push(fields, extra, third_party_key());
            lemma_lookup_push(fields, extra, fcp_key());
            lemma_lookup_push(fields, extra, speed_index_key(v));
            lemma_lookup_push(fields, extra, lcp_key());
            lemma_lookup_push(fields, extra, interactive_key());
            lemma_lookup_push(fields, extra, tbt_key());
            lemma_lookup_push(fields, extra, cls_key());
            lemma_lookup_push(fields, extra, max_fid_key());
            lemma_lookup_push(fields, extra, fmp_key());
            lemma_lookup_push(fields, extra, fci_key());
            assert(vitals_of(fields.push(extra), v) == vitals_of(fields, v));
            assert(section_errors_of(fields.push(extra)) == section_errors_of(fields));
        },
    }
}

} // verus!
