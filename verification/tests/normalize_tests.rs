use lighthouse_core::adapter::{normalize, NormalizationError, RequiredField};
use lighthouse_core::canonical::{RecoverableSectionError, SectionId};
use lighthouse_core::raw::{RawCell, RawField, RawReport, RawRow, RawScalar, RawValue};
use lighthouse_core::score::Score;

fn field(key: &str, value: RawValue) -> RawField {
    RawField { key: key.to_string(), value }
}

fn text(v: &str) -> RawValue {
    RawValue::Text(v.to_string())
}

fn num(v: i64) -> RawValue {
    RawValue::Number(v)
}

fn cell(key: &str, value: RawScalar) -> RawCell {
    RawCell { key: key.to_string(), value }
}

/// The required core every well-formed raw report carries; the score is
/// 0.91 in thousandths.
fn base_fields() -> Vec<RawField> {
    vec![
        field("requestedUrl", text("https://example.com/")),
        field("finalUrl", text("https://example.com/landing")),
        field("fetchTime", text("2024-05-01T00:00:00.000Z")),
        field("performance-score", num(910)),
    ]
}

#[test]
fn normalize_reads_required_fields() {
    let raw = RawReport { fields: base_fields() };
    let normalized = normalize(&raw, "6.1.0").unwrap();
    assert_eq!(normalized.report.lighthouse_version, "6.1.0");
    assert_eq!(normalized.report.requested_url, "https://example.com/");
    assert_eq!(normalized.report.final_url, "https://example.com/landing");
    assert_eq!(normalized.report.fetch_time, "2024-05-01T00:00:00.000Z");
    assert_eq!(normalized.report.overall_score, Score::Val(910));
    assert!(normalized.section_errors.is_empty());
    assert_eq!(normalized.report.web_vitals.speed_index, None);
    assert_eq!(normalized.report.resource_summary, None);
    assert_eq!(normalized.report.network_requests, None);
}

#[test]
fn unsupported_version_is_refused() {
    let raw = RawReport { fields: base_fields() };
    assert_eq!(
        normalize(&raw, "7.0.0").unwrap_err(),
        NormalizationError::UnsupportedVersion
    );
    assert_eq!(
        normalize(&raw, "").unwrap_err(),
        NormalizationError::UnsupportedVersion
    );
    assert_eq!(
        normalize(&raw, "5x").unwrap_err(),
        NormalizationError::UnsupportedVersion
    );
    assert!(normalize(&raw, "5").is_ok());
    assert!(normalize(&raw, "5.6.0").is_ok());
    assert!(normalize(&raw, "6").is_ok());
}

#[test]
fn missing_required_field_is_fatal() {
    let mut fields = base_fields();
    fields.retain(|f| f.key != "finalUrl");
    let raw = RawReport { fields };
    assert_eq!(
        normalize(&raw, "6.1.0").unwrap_err(),
        NormalizationError::MissingRequiredField(RequiredField::FinalUrl)
    );

    let raw_empty = RawReport { fields: Vec::new() };
    assert_eq!(
        normalize(&raw_empty, "6.1.0").unwrap_err(),
        NormalizationError::MissingRequiredField(RequiredField::RequestedUrl)
    );

    let mut fields = base_fields();
    fields.retain(|f| f.key != "performance-score");
    let raw = RawReport { fields };
    assert_eq!(
        normalize(&raw, "6.1.0").unwrap_err(),
        NormalizationError::MissingRequiredField(RequiredField::OverallScore)
    );
}

#[test]
fn malformed_score_is_kept_invalid() {
    let mut fields = base_fields();
    fields.retain(|f| f.key != "performance-score");
    fields.push(field("performance-score", num(2000)));
    let raw = RawReport { fields };
    let normalized = normalize(&raw, "6.1.0").unwrap();
    assert_eq!(normalized.report.overall_score, Score::Invalid);

    let mut fields = base_fields();
    fields.retain(|f| f.key != "performance-score");
    fields.push(field("performance-score", text("not a number")));
    let raw = RawReport { fields };
    let normalized = normalize(&raw, "6.1.0").unwrap();
    assert_eq!(normalized.report.overall_score, Score::Invalid);
}

#[test]
fn normalize_is_deterministic() {
    let make = || {
        let mut fields = base_fields();
        fields.push(field("speed-index", num(1_200_000)));
        fields.push(field("throttlingMethod", text("simulate")));
        RawReport { fields }
    };
    let first = normalize(&make(), "6.1.0").unwrap();
    let second = normalize(&make(), "6.1.0").unwrap();
    assert_eq!(first, second);
}

#[test]
fn unknown_field_changes_nothing() {
    let mut fields = base_fields();
    fields.push(field("speed-index", num(1_200_000)));
    let plain = normalize(&RawReport { fields: fields.clone() }, "6.1.0").unwrap();
    fields.push(field("some-future-audit", num(42)));
    fields.push(field("experimental-flag", RawValue::Flag(true)));
    let extended = normalize(&RawReport { fields }, "6.1.0").unwrap();
    assert_eq!(plain, extended);
}

#[test]
fn speed_index_agrees_across_versions() {
    // 1200.0 in thousandths, under the v5 legacy key.
    let mut v5_fields = base_fields();
    v5_fields.push(field("speed-index-metric", num(1_200_000)));
    let v5 = normalize(&RawReport { fields: v5_fields }, "5.6.0").unwrap();

    // The same metric at 1200.0 under the v6 renamed key.
    let mut v6_fields = base_fields();
    v6_fields.push(field("speed-index", num(1_200_000)));
    let v6 = normalize(&RawReport { fields: v6_fields }, "6.1.0").unwrap();

    assert_eq!(v5.report.web_vitals.speed_index, Some(1_200_000));
    assert_eq!(v6.report.web_vitals.speed_index, Some(1_200_000));
    assert_eq!(
        v5.report.web_vitals.speed_index,
        v6.report.web_vitals.speed_index
    );
}

#[test]
fn v5_adapter_ignores_v6_speed_index_key() {
    let mut fields = base_fields();
    fields.push(field("speed-index", num(1_200_000)));
    let normalized = normalize(&RawReport { fields }, "5.6.0").unwrap();
    assert_eq!(normalized.report.web_vitals.speed_index, None);
}

#[test]
fn measured_zero_differs_from_absent() {
    let mut fields = base_fields();
    fields.push(field("total-blocking-time", num(0)));
    let normalized = normalize(&RawReport { fields }, "6.1.0").unwrap();
    assert_eq!(normalized.report.web_vitals.total_blocking_time, Some(0));
    assert_eq!(normalized.report.web_vitals.interactive, None);
}

#[test]
fn all_vitals_are_read() {
    let mut fields = base_fields();
    fields.push(field("first-contentful-paint", num(800_000)));
    fields.push(field("speed-index", num(1_200_000)));
    fields.push(field("largest-contentful-paint", num(1_500_000)));
    fields.push(field("interactive", num(2_000_000)));
    fields.push(field("total-blocking-time", num(150_000)));
    fields.push(field("cumulative-layout-shift", num(50)));
    fields.push(field("max-potential-fid", num(90_000)));
    fields.push(field("first-meaningful-paint", num(900_000)));
    fields.push(field("first-cpu-idle", num(1_800_000)));
    let vitals = normalize(&RawReport { fields }, "6.1.0")
        .unwrap()
        .report
        .web_vitals;
    assert_eq!(vitals.first_contentful_paint, Some(800_000));
    assert_eq!(vitals.speed_index, Some(1_200_000));
    assert_eq!(vitals.largest_contentful_paint, Some(1_500_000));
    assert_eq!(vitals.interactive, Some(2_000_000));
    assert_eq!(vitals.total_blocking_time, Some(150_000));
    assert_eq!(vitals.cumulative_layout_shift, Some(50));
    assert_eq!(vitals.max_potential_fid, Some(90_000));
    assert_eq!(vitals.first_meaningful_paint, Some(900_000));
    assert_eq!(vitals.first_cpu_idle, Some(1_800_000));
}

fn resource_row(kind: &str, label: &str, count: i64, transfer: Option<i64>) -> RawRow {
    let mut cells = vec![
        cell("resourceType", RawScalar::Text(kind.to_string())),
        cell("label", RawScalar::Text(label.to_string())),
        cell("requestCount", RawScalar::Number(count)),
    ];
    if let Some(t) = transfer {
        cells.push(cell("transferSize", RawScalar::Number(t)));
    }
    RawRow { cells }
}

#[test]
fn resource_summary_section_is_recovered() {
    let mut fields = base_fields();
    fields.push(field(
        "resource-summary",
        RawValue::Rows(vec![
            resource_row("script", "Script", 12, Some(34_000)),
            resource_row("image", "Image", 7, None),
        ]),
    ));
    let normalized = normalize(&RawReport { fields }, "6.1.0").unwrap();
    let resources = normalized.report.resource_summary.unwrap();
    assert_eq!(resources.len(), 2);
    assert_eq!(resources[0].resource_type, "script");
    assert_eq!(resources[0].label, "Script");
    assert_eq!(resources[0].request_count, 12);
    assert_eq!(resources[0].transfer_size, Some(34_000));
    assert_eq!(resources[1].resource_type, "image");
    assert_eq!(resources[1].transfer_size, None);
    assert!(normalized.section_errors.is_empty());
}

#[test]
fn malformed_section_becomes_absent_with_error() {
    // The section is present but has the wrong shape entirely.
    let mut fields = base_fields();
    fields.push(field("resource-summary", text("oops")));
    let normalized = normalize(&RawReport { fields }, "6.1.0").unwrap();
    assert_eq!(normalized.report.resource_summary, None);
    assert_eq!(
        normalized.section_errors,
        vec![RecoverableSectionError { section: SectionId::ResourceSummary }]
    );
    // The rest of the report is untouched.
    assert_eq!(normalized.report.overall_score, Score::Val(910));

    // A single malformed row also drops only the one section.
    let bad_row = RawRow {
        cells: vec![cell("label", RawScalar::Text("Script".to_string()))],
    };
    let mut fields = base_fields();
    fields.push(field("resource-summary", RawValue::Rows(vec![bad_row])));
    fields.push(field(
        "network-requests",
        RawValue::Rows(vec![RawRow {
            cells: vec![
                cell("url", RawScalar::Text("https://example.com/app.js".to_string())),
                cell("resourceSize", RawScalar::Number(5_000)),
                cell("statusCode", RawScalar::Number(200)),
                cell("mimeType", RawScalar::Text("text/javascript".to_string())),
                cell("finished", RawScalar::Flag(true)),
            ],
        }]),
    ));
    let normalized = normalize(&RawReport { fields }, "6.1.0").unwrap();
    assert_eq!(normalized.report.resource_summary, None);
    let requests = normalized.report.network_requests.unwrap();
    assert_eq!(requests.len(), 1);
    assert_eq!(requests[0].url, "https://example.com/app.js");
    assert_eq!(requests[0].resource_size, 5_000);
    assert_eq!(requests[0].status_code, 200);
    assert_eq!(requests[0].mime_type, "text/javascript");
    assert_eq!(requests[0].finished, Some(true));
    assert_eq!(requests[0].start_time, None);
    assert_eq!(
        normalized.section_errors,
        vec![RecoverableSectionError { section: SectionId::ResourceSummary }]
    );
}

#[test]
fn third_party_summary_section_is_recovered() {
    let row = RawRow {
        cells: vec![
            cell("entityType", RawScalar::Text("cdn".to_string())),
            cell("entityText", RawScalar::Text("Example CDN".to_string())),
            cell("entityUrl", RawScalar::Text("https://cdn.example".to_string())),
            cell("transferSize", RawScalar::Number(42_000)),
            cell("mainThreadTime", RawScalar::Number(12_500)),
            cell("blockingTime", RawScalar::Number(3_000)),
        ],
    };
    let mut fields = base_fields();
    fields.push(field("third-party-summary", RawValue::Rows(vec![row])));
    let normalized = normalize(&RawReport { fields }, "6.1.0").unwrap();
    let third_parties = normalized.report.third_party_summary.unwrap();
    assert_eq!(third_parties.len(), 1);
    assert_eq!(third_parties[0].entity.entity_type, "cdn");
    assert_eq!(third_parties[0].entity.text, "Example CDN");
    assert_eq!(third_parties[0].entity.url, "https://cdn.example");
    assert_eq!(third_parties[0].transfer_size, 42_000);
    assert_eq!(third_parties[0].main_thread_time, 12_500);
    assert_eq!(third_parties[0].blocking_time, 3_000);
    assert!(normalized.section_errors.is_empty());

    // A row without its entity drops only this section.
    let bare_row = RawRow {
        cells: vec![cell("transferSize", RawScalar::Number(42_000))],
    };
    let mut fields = base_fields();
    fields.push(field("third-party-summary", RawValue::Rows(vec![bare_row])));
    let normalized = normalize(&RawReport { fields }, "6.1.0").unwrap();
    assert_eq!(normalized.report.third_party_summary, None);
    assert_eq!(
        normalized.section_errors,
        vec![RecoverableSectionError { section: SectionId::ThirdPartySummary }]
    );
}

#[test]
fn out_of_range_status_code_fails_the_row() {
    let mut fields = base_fields();
    fields.push(field(
        "network-requests",
        RawValue::Rows(vec![RawRow {
            cells: vec![
                cell("url", RawScalar::Text("https://example.com/".to_string())),
                cell("resourceSize", RawScalar::Number(5_000)),
                cell("statusCode", RawScalar::Number(1_000_000)),
                cell("mimeType", RawScalar::Text("text/html".to_string())),
            ],
        }]),
    ));
    let normalized = normalize(&RawReport { fields }, "6.1.0").unwrap();
    assert_eq!(normalized.report.network_requests, None);
    assert_eq!(
        normalized.section_errors,
        vec![RecoverableSectionError { section: SectionId::NetworkRequests }]
    );
}

#[test]
fn config_subset_is_carried() {
    let mut fields = base_fields();
    fields.push(field("throttlingMethod", text("simulate")));
    fields.push(field("emulatedFormFactor", text("mobile")));
    let normalized = normalize(&RawReport { fields }, "6.1.0").unwrap();
    assert_eq!(normalized.report.throttling_method, "simulate");
    assert_eq!(normalized.report.emulated_form_factor, "mobile");

    let bare = normalize(&RawReport { fields: base_fields() }, "6.1.0").unwrap();
    assert_eq!(bare.report.throttling_method, "");
    assert_eq!(bare.report.emulated_form_factor, "");
}

#[test]
fn duplicate_keys_take_first_occurrence() {
    let mut fields = base_fields();
    fields.push(field("speed-index", num(1_000)));
    fields.push(field("speed-index", num(2_000)));
    let normalized = normalize(&RawReport { fields }, "6.1.0").unwrap();
    assert_eq!(normalized.report.web_vitals.speed_index, Some(1_000));
}

#[test]
fn bad_attempt_does_not_abort_its_siblings() {
    let good_low = {
        let mut fields = base_fields();
        fields.retain(|f| f.key != "performance-score");
        fields.push(field("performance-score", num(420)));
        RawReport { fields }
    };
    let bad = {
        let mut fields = base_fields();
        fields.retain(|f| f.key != "requestedUrl");
        RawReport { fields }
    };
    let good_high = RawReport { fields: base_fields() };

    let (survivors, failures) =
        lighthouse_core::pipeline::normalize_attempts(&vec![good_low, bad, good_high], "6.1.0");
    assert_eq!(survivors.len(), 2);
    assert_eq!(
        failures,
        vec![NormalizationError::MissingRequiredField(
            RequiredField::RequestedUrl
        )]
    );

    let reports = lighthouse_core::pipeline::reports_of(survivors);
    let all = lighthouse_core::selector::select_best(reports).unwrap();
    assert_eq!(all.best_score_index, 1);
    assert_eq!(all.best_score, Score::Val(910));
}

#[test]
fn selection_fails_only_when_nothing_normalizes() {
    let bad = || {
        let mut fields = base_fields();
        fields.retain(|f| f.key != "fetchTime");
        RawReport { fields }
    };
    let (survivors, failures) =
        lighthouse_core::pipeline::normalize_attempts(&vec![bad(), bad()], "6.1.0");
    assert!(survivors.is_empty());
    assert_eq!(failures.len(), 2);
    let reports = lighthouse_core::pipeline::reports_of(survivors);
    assert_eq!(
        lighthouse_core::selector::select_best(reports).unwrap_err(),
        lighthouse_core::selector::SelectError::EmptyAttemptSet
    );
}
