use bson::oid::ObjectId;
use lighthouse_core::canonical::{CanonicalReport, CanonicalVitals};
use lighthouse_core::history::{History, HistoryError};
use lighthouse_core::lh_models::{AuditSimple, Throttling};
use lighthouse_core::resolver::{resolve, resolve_profile, ProfileKey};
use lighthouse_core::score::Score;
use lighthouse_core::selector::{select_best, SelectError};
use lighthouse_core::{
    summarize, AuditProfile, AuditSummary, Authentication, AuthenticationType, Categories,
    ConfigSettings, Cookie, PageScoreParameters, Performance, ScoreParameters,
    SiteScoreParameters, WebVitals,
};

fn empty_vitals() -> CanonicalVitals {
    CanonicalVitals {
        first_contentful_paint: None,
        speed_index: None,
        largest_contentful_paint: None,
        interactive: None,
        total_blocking_time: None,
        cumulative_layout_shift: None,
        max_potential_fid: None,
        first_meaningful_paint: None,
        first_cpu_idle: None,
    }
}

fn report_with_score(score: Score) -> CanonicalReport {
    CanonicalReport {
        lighthouse_version: "6.1.0".to_string(),
        requested_url: "https://example.com/".to_string(),
        final_url: "https://example.com/".to_string(),
        fetch_time: "2024-05-01T00:00:00.000Z".to_string(),
        overall_score: score,
        web_vitals: empty_vitals(),
        throttling_method: "simulate".to_string(),
        emulated_form_factor: "mobile".to_string(),
        resource_summary: None,
        network_requests: None,
        third_party_summary: None,
    }
}

#[test]
fn select_best_picks_first_maximum() {
    // Scores 0.42, 0.91, 0.91 in thousandths: the tie goes to index 1.
    let attempts = vec![
        report_with_score(Score::Val(420)),
        report_with_score(Score::Val(910)),
        report_with_score(Score::Val(910)),
    ];
    let all = select_best(attempts).unwrap();
    assert_eq!(all.best_score_index, 1);
    assert_eq!(all.best_score, Score::Val(910));
    assert_eq!(all.reports.len(), 3);
    assert_eq!(all.reports[0].overall_score, Score::Val(420));
}

#[test]
fn select_best_on_empty_set_fails() {
    assert_eq!(
        select_best(Vec::new()).unwrap_err(),
        SelectError::EmptyAttemptSet
    );
}

#[test]
fn invalid_score_never_selected_among_valid() {
    let attempts = vec![
        report_with_score(Score::Invalid),
        report_with_score(Score::Val(100)),
        report_with_score(Score::Invalid),
    ];
    let all = select_best(attempts).unwrap();
    assert_eq!(all.best_score_index, 1);
    assert_eq!(all.best_score, Score::Val(100));
}

#[test]
fn all_invalid_scores_select_the_first() {
    let attempts = vec![
        report_with_score(Score::Invalid),
        report_with_score(Score::Invalid),
    ];
    let all = select_best(attempts).unwrap();
    assert_eq!(all.best_score_index, 0);
    assert_eq!(all.best_score, Score::Invalid);
}

#[test]
fn score_order_puts_invalid_lowest() {
    assert!(Score::Invalid.le(&Score::Val(0)));
    assert!(!Score::Val(0).le(&Score::Invalid));
    assert!(Score::Invalid.le(&Score::Invalid));
    assert!(Score::Val(420).le(&Score::Val(910)));
    assert!(!Score::Val(910).le(&Score::Val(420)));
}

#[test]
fn resolve_is_deterministic() {
    let first = resolve("mobile".to_string(), "6.1.0".to_string(), None);
    let second = resolve("mobile".to_string(), "6.1.0".to_string(), None);
    assert_eq!(first, second);
}

#[test]
fn resolve_uses_explicit_id_verbatim() {
    let explicit = resolve(
        "mobile".to_string(),
        "6.1.0".to_string(),
        Some("profile-7".to_string()),
    );
    assert_eq!(explicit, ProfileKey::Explicit("profile-7".to_string()));
    let derived = resolve("mobile".to_string(), "6.1.0".to_string(), None);
    assert_eq!(
        derived,
        ProfileKey::Derived {
            device: "mobile".to_string(),
            lighthouse_version: "6.1.0".to_string(),
        }
    );
    assert_ne!(explicit, derived);
}

#[test]
fn structured_identity_does_not_collide_on_formatting() {
    // A concatenated key could not tell these apart.
    let a = resolve("mobile:6".to_string(), "1.0".to_string(), None);
    let b = resolve("mobile".to_string(), "6:1.0".to_string(), None);
    assert_ne!(a, b);
}

#[test]
fn resolve_profile_carries_the_resolved_identity() {
    let explicit = resolve_profile(
        "mobile".to_string(),
        "6.1.0".to_string(),
        Some("profile-7".to_string()),
    );
    assert_eq!(explicit.id, "profile-7");
    assert_eq!(
        explicit.identity(),
        ProfileKey::Explicit("profile-7".to_string())
    );

    let derived = resolve_profile("mobile".to_string(), "6.1.0".to_string(), None);
    assert_eq!(derived.id, "");
    assert_eq!(
        derived.identity(),
        resolve("mobile".to_string(), "6.1.0".to_string(), None)
    );
    assert!(derived.enabled.is_none());
    assert!(derived.blocked_url_patterns.is_none());
}

#[test]
fn profile_identity_ignores_overrides() {
    let mut with_overrides = AuditProfile::new(
        "profile-7".to_string(),
        "Mobile".to_string(),
        "mobile".to_string(),
        "6.1.0".to_string(),
    );
    with_overrides.enabled = Some(false);
    with_overrides.blocked_url_patterns = Some(vec!["*.ads.example".to_string()]);
    let bare = AuditProfile::new(
        "profile-7".to_string(),
        "Mobile".to_string(),
        "mobile".to_string(),
        "6.1.0".to_string(),
    );
    assert_eq!(with_overrides.identity(), bare.identity());
}

#[test]
fn profile_without_id_derives_its_identity() {
    let profile = AuditProfile::new(
        "".to_string(),
        "Mobile".to_string(),
        "mobile".to_string(),
        "6.1.0".to_string(),
    );
    assert_eq!(
        profile.identity(),
        ProfileKey::Derived {
            device: "mobile".to_string(),
            lighthouse_version: "6.1.0".to_string(),
        }
    );
}

fn empty_audit(id: &str) -> AuditSimple {
    AuditSimple {
        id: id.to_string(),
        title: String::new(),
        description: String::new(),
        score: None,
        warnings: None,
        score_display_mode: None,
        numeric_value: None,
        numeric_unit: None,
        display_value: None,
    }
}

fn make_summary(run_id: i32) -> AuditSummary {
    AuditSummary::new(
        ObjectId::from_bytes([1; 12]),
        run_id,
        "page-1".to_string(),
        "profile-7".to_string(),
        AuditProfile::new(
            "profile-7".to_string(),
            "Mobile".to_string(),
            "mobile".to_string(),
            "6.1.0".to_string(),
        ),
        "2024-05-01T00:00:00.000Z".to_string(),
        Categories {
            performance: Performance {
                id: "performance".to_string(),
                title: "Performance".to_string(),
                score: Score::Val(910),
            },
        },
        ConfigSettings {
            throttling_method: "simulate".to_string(),
            throttling: Throttling {
                rtt_ms: 0,
                throughput_kbps: 0,
                request_latency_ms: 0,
                download_throughput_kbps: 0,
                upload_throughput_kbps: 0,
                cpu_slowdown_multiplier: 0,
            },
            emulated_form_factor: "mobile".to_string(),
        },
        WebVitals {
            first_contentful_paint: empty_audit("first-contentful-paint"),
            speed_index: empty_audit("speed-index"),
            largest_contentful_paint: None,
            interactive: empty_audit("interactive"),
            total_blocking_time: empty_audit("total-blocking-time"),
            cumulative_layout_shift: None,
            max_potential_fid: empty_audit("max-potential-fid"),
            first_meaningful_paint: empty_audit("first-meaningful-paint"),
            first_cpu_idle: empty_audit("first-cpu-idle"),
        },
        ObjectId::from_bytes([2; 12]),
    )
}

fn slot_profile() -> ProfileKey {
    resolve("mobile".to_string(), "6.1.0".to_string(), None)
}

#[test]
fn history_appends_in_order_and_refuses_stale_runs() {
    let mut history = History::new();
    for run in [1, 2, 3] {
        let r = history.append(
            "site-1".to_string(),
            "page-1".to_string(),
            slot_profile(),
            make_summary(run),
        );
        assert!(r.is_ok());
    }
    // Run 2 after run 3 is stale: refused, and nothing changes.
    assert_eq!(
        history
            .append(
                "site-1".to_string(),
                "page-1".to_string(),
                slot_profile(),
                make_summary(2),
            )
            .unwrap_err(),
        HistoryError::OutOfOrderRun
    );
    let site = "site-1".to_string();
    let page = "page-1".to_string();
    let profile = slot_profile();
    let trend = history.trend(&site, &page, &profile).unwrap();
    let runs: Vec<i32> = trend.iter().map(|s| s.site_run_id).collect();
    assert_eq!(runs, vec![1, 2, 3]);
}

#[test]
fn history_refuses_duplicate_run_ids() {
    let mut history = History::new();
    assert!(history
        .append(
            "site-1".to_string(),
            "page-1".to_string(),
            slot_profile(),
            make_summary(5),
        )
        .is_ok());
    assert_eq!(
        history
            .append(
                "site-1".to_string(),
                "page-1".to_string(),
                slot_profile(),
                make_summary(5),
            )
            .unwrap_err(),
        HistoryError::OutOfOrderRun
    );
}

#[test]
fn history_slots_are_independent() {
    let mut history = History::new();
    assert!(history
        .append(
            "site-1".to_string(),
            "page-1".to_string(),
            slot_profile(),
            make_summary(5),
        )
        .is_ok());
    // A lower run id is fine in another slot: no cross-slot ordering.
    assert!(history
        .append(
            "site-1".to_string(),
            "page-2".to_string(),
            slot_profile(),
            make_summary(1),
        )
        .is_ok());
    let site = "site-1".to_string();
    let page1 = "page-1".to_string();
    let page2 = "page-2".to_string();
    let profile = slot_profile();
    assert_eq!(history.trend(&site, &page1, &profile).unwrap().len(), 1);
    assert_eq!(history.trend(&site, &page2, &profile).unwrap().len(), 1);
}

#[test]
fn latest_view_agrees_with_trend() {
    let mut history = History::new();
    for run in [1, 2, 3] {
        history
            .append(
                "site-1".to_string(),
                "page-1".to_string(),
                slot_profile(),
                make_summary(run),
            )
            .unwrap();
    }
    let site = "site-1".to_string();
    let page = "page-1".to_string();
    let profile = slot_profile();
    let latest = history.latest(&site, &page, &profile).unwrap();
    let trend = history.trend(&site, &page, &profile).unwrap();
    assert_eq!(latest.site_run_id, trend.last().unwrap().site_run_id);
    assert_eq!(latest.site_run_id, 3);

    let missing_page = "page-9".to_string();
    assert!(history.latest(&site, &missing_page, &profile).is_none());
    assert!(history.trend(&site, &missing_page, &profile).is_none());
}

#[test]
fn summarize_projects_the_chosen_report() {
    let mut report = report_with_score(Score::Val(910));
    report.web_vitals.speed_index = Some(1_200_000);
    report.web_vitals.largest_contentful_paint = Some(1_500_000);
    let profile = AuditProfile::new(
        "profile-7".to_string(),
        "Mobile".to_string(),
        "mobile".to_string(),
        "6.1.0".to_string(),
    );
    let summary = summarize(
        &report,
        ObjectId::from_bytes([1; 12]),
        42,
        "page-1".to_string(),
        profile,
        ObjectId::from_bytes([2; 12]),
    );
    assert_eq!(summary.site_run_id, 42);
    assert_eq!(summary.page_id, "page-1");
    assert_eq!(summary.audit_profile_id, "profile-7");
    assert_eq!(summary.fetch_time, report.fetch_time);
    assert_eq!(summary.categories.performance.score, Score::Val(910));
    assert_eq!(summary.config_settings.throttling_method, "simulate");
    assert_eq!(summary.config_settings.emulated_form_factor, "mobile");
    assert_eq!(
        summary.web_vitals.speed_index.numeric_value,
        Some(1_200_000)
    );
    assert_eq!(
        summary
            .web_vitals
            .largest_contentful_paint
            .unwrap()
            .numeric_value,
        Some(1_500_000)
    );
    assert_eq!(summary.web_vitals.interactive.numeric_value, None);
    assert!(summary.web_vitals.cumulative_layout_shift.is_none());
    assert_eq!(summary.audit_detail_id, ObjectId::from_bytes([2; 12]));
    assert!(summary.id.is_none());
}

#[test]
fn score_parameters_constructors() {
    let page = PageScoreParameters {
        url: "https://example.com/".to_string(),
        throttling: None,
        attempts: Some(3),
        device: Some("mobile".to_string()),
        lighthouse_version: Some("6.1.0".to_string()),
        blocked_url_patterns: None,
        cookie: None,
    };
    let params = ScoreParameters::for_page(page);
    assert!(params.page.is_some());
    assert!(params.site.is_none());

    let site = SiteScoreParameters {
        site_id: "site-1".to_string(),
        cookie: None,
    };
    let params = ScoreParameters::for_site(site);
    assert!(params.page.is_none());
    assert!(params.site.is_some());
    assert_eq!(params.site.unwrap().site_id, "site-1");
}

#[test]
fn authentication_from_cookie_is_cookie_typed() {
    let auth = Authentication::from_cookie(Cookie::new(
        "session".to_string(),
        "opaque-session-token".to_string(),
    ));
    assert!(matches!(
        auth.authentication_type,
        AuthenticationType::Cookie
    ));
    let cookie = auth.cookie.unwrap();
    assert_eq!(cookie.name, "session");
    assert_eq!(cookie.value, "opaque-session-token");
}

#[test]
fn audit_profile_new_leaves_overrides_unset() {
    let profile = AuditProfile::new(
        "profile-7".to_string(),
        "Mobile".to_string(),
        "mobile".to_string(),
        "6.1.0".to_string(),
    );
    assert_eq!(profile.id, "profile-7");
    assert_eq!(profile.name, "Mobile");
    assert_eq!(profile.device, "mobile");
    assert_eq!(profile.lighthouse_version, "6.1.0");
    assert!(profile.enabled.is_none());
    assert!(profile.blocked_url_patterns.is_none());
}
