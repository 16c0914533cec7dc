//! Core library of a web-performance-audit tracking service.
//!
//! Heterogeneous page-speed audit reports are normalized into one canonical
//! record ([`adapter`]), a representative result is selected among repeated
//! measurement attempts ([`selector`]), audit profiles resolve to stable
//! identities ([`resolver`]), and per-slot trend histories grow append-only
//! ([`history`]) so that score regressions stay detectable over time.
//!
//! All fractional quantities (scores, milliseconds, byte estimates) are
//! carried as fixed-point integers in thousandths of a unit.

pub mod adapter;
pub mod canonical;
pub mod history;
pub mod ids;
pub mod lh_models;
pub mod pipeline;
pub mod raw;
pub mod resolver;
pub mod score;
pub mod selector;

use vstd::prelude::*;

use bson::oid::ObjectId;
use canonical::{CanonicalReport, CanonicalVitals};
use score::Score;

verus! {

/// What a caller asks to have scored: one page, or a whole site.
pub struct ScoreParameters {
    pub page: Option<PageScoreParameters>,
    pub site: Option<SiteScoreParameters>,
}

impl ScoreParameters {
    /// Parameters that score a single page.
    pub fn for_page(page: PageScoreParameters) -> (p: ScoreParameters)
        ensures
            p.page == Some(page),
            p.site is None,
    {
        ScoreParameters { page: Some(page), site: None }
    }

    /// Parameters that score every page of a site.
    pub fn for_site(site: SiteScoreParameters) -> (p: ScoreParameters)
        ensures
            p.page is None,
            p.site == Some(site),
    {
        ScoreParameters { page: None, site: Some(site) }
    }
}

/// How one page is to be audited.
pub struct PageScoreParameters {
    pub url: String,
    pub throttling: Option<String>,
    pub attempts: Option<i8>,
    pub device: Option<String>,
    pub lighthouse_version: Option<String>,
    pub blocked_url_patterns: Option<Vec<String>>,
    pub cookie: Option<Cookie>,
}

/// How a stored site is to be audited.
pub struct SiteScoreParameters {
    pub site_id: String,
    pub cookie: Option<Cookie>,
}

/// The full detail record of one audited run, stored once and referenced
/// from history summaries by id.
pub struct AuditDetail {
    pub lighthouse_version: String,
    pub requested_url: String,
    pub final_url: String,
    pub fetch_time: String,
    pub categories: Categories,
    pub config_settings: ConfigSettings,
    pub web_vitals: WebVitals,
    pub largest_contentful_paint_element: Option<lh_models::AuditTable<lh_models::Node>>,
    pub network_requests: Option<lh_models::AuditTable<lh_models::NetworkRequest>>,
    pub resource_summary: Option<lh_models::AuditTable<lh_models::Resource>>,
    pub third_party_summary: Option<lh_models::AuditTable<lh_models::ThirdPartyDetail>>,
    pub screenshot_thumbnails: Option<lh_models::Audit<lh_models::Filmstrip>>,
    pub uses_responsive_images: Option<lh_models::Audit<lh_models::Opportunity>>,
    pub uses_optimized_images: Option<lh_models::Audit<lh_models::Opportunity>>,
    pub uses_webp_images: Option<lh_models::Audit<lh_models::Opportunity>>,
    pub offscreen_images: Option<lh_models::Audit<lh_models::Opportunity>>,
    pub uses_http2: Option<lh_models::Audit<lh_models::Opportunity>>,
    pub bootup_time: Option<lh_models::AuditTable<lh_models::ScriptExecutionItem>>,
    pub main_thread_work_breakdown: Option<lh_models::AuditTable<lh_models::WorkBreakdownItem>>,
    pub uses_rel_preconnect: Option<lh_models::AuditSimple>,
    pub network_server_latency: Option<lh_models::AuditTable<lh_models::LatencyItem>>,
    pub network_rtt: Option<lh_models::AuditTable<lh_models::NetworkRttItem>>,
    pub main_thread_tasks: Option<lh_models::AuditTable<lh_models::Task>>,
    pub unminified_css: Option<lh_models::Audit<lh_models::Opportunity>>,
    pub unminified_javascript: Option<lh_models::Audit<lh_models::Opportunity>>,
    pub unused_css_rules: Option<lh_models::Audit<lh_models::Opportunity>>,
    pub unused_javascript: Option<lh_models::Audit<lh_models::Opportunity>>,
    pub render_blocking_resources: Option<lh_models::Audit<lh_models::Opportunity>>,
    pub uses_long_cache_ttl: Option<lh_models::AuditTable<lh_models::CachePolicyItem>>,
    pub user_timings: Option<lh_models::AuditTable<lh_models::UserTiming>>,
}

/// The web-vital audits carried into a summary. Absence stays visible as a
/// missing numeric value, never as a zero.
pub struct WebVitals {
    pub first_contentful_paint: lh_models::AuditSimple,
    pub speed_index: lh_models::AuditSimple,
    pub largest_contentful_paint: Option<lh_models::AuditSimple>,
    pub interactive: lh_models::AuditSimple,
    pub total_blocking_time: lh_models::AuditSimple,
    pub cumulative_layout_shift: Option<lh_models::AuditSimple>,
    pub max_potential_fid: lh_models::AuditSimple,
    pub first_meaningful_paint: lh_models::AuditSimple,
    pub first_cpu_idle: lh_models::AuditSimple,
}

/// The category block of a summary; performance is the one tracked.
pub struct Categories {
    pub performance: Performance,
}

/// The performance category as carried in summaries.
pub struct Performance {
    pub id: String,
    pub title: String,
    pub score: Score,
}

/// The configuration subset carried in summaries.
pub struct ConfigSettings {
    pub throttling_method: String,
    pub throttling: lh_models::Throttling,
    pub emulated_form_factor: String,
}

/// Which devices and tool versions a deployment audits with.
pub struct LighthouseSettings {
    pub devices: Vec<String>,
    pub versions: Vec<String>,
}

/// A registered site: its pages, its audit profiles, and its run counter.
pub struct Site {
    pub id: Option<ObjectId>,
    pub name: String,
    pub group_id: Option<ObjectId>,
    pub pages: Vec<Page>,
    pub audit_profiles: Vec<AuditProfile>,
    pub last_run_id: i32,
    pub authentication: Option<Authentication>,
}

/// The identifying head of a site, without its pages and profiles.
pub struct MetaSite {
    pub id: ObjectId,
    pub name: String,
    pub group_id: Option<ObjectId>,
}

/// How the audit tool authenticates against a page.
pub struct Authentication {
    pub authentication_type: AuthenticationType,
    pub cookie: Option<Cookie>,
}

impl Authentication {
    /// Cookie-based authentication.
    pub fn from_cookie(cookie: Cookie) -> (a: Authentication)
        ensures
            a.authentication_type == AuthenticationType::Cookie,
            a.cookie == Some(cookie),
    {
        Authentication { authentication_type: AuthenticationType::Cookie, cookie: Some(cookie) }
    }
}

/// The supported ways of authenticating.
pub enum AuthenticationType {
    Cookie,
    Anonymous,
}

/// One page of a site.
pub struct Page {
    pub id: String,
    pub name: String,
    pub url: String,
}

/// An audit profile: the identity-bearing device and tool version, plus
/// non-identity overrides (enabled flag, blocked-URL patterns) that two
/// profiles may differ in while still naming the same history slot.
pub struct AuditProfile {
    pub id: String,
    pub name: String,
    pub device: String,
    pub lighthouse_version: String,
    pub enabled: Option<bool>,
    pub blocked_url_patterns: Option<Vec<String>>,
}

impl AuditProfile {
    /// A profile without overrides.
    pub fn new(id: String, name: String, device: String, lighthouse_version: String) -> (p:
        AuditProfile)
        ensures
            p.id == id,
            p.name == name,
            p.device == device,
            p.lighthouse_version == lighthouse_version,
            p.enabled is None,
            p.blocked_url_patterns is None,
    {
        AuditProfile {
            id,
            name,
            device,
            lighthouse_version,
            enabled: None,
            blocked_url_patterns: None,
        }
    }
}

/// One history entry: the condensed projection of a chosen report, with the
/// full detail record referenced by id, never duplicated.
pub struct AuditSummary {
    pub id: Option<ObjectId>,
    pub site_id: ObjectId,
    pub site_run_id: i32,
    pub page_id: String,
    pub audit_profile_id: String,
    pub audit_profile: AuditProfile,
    pub fetch_time: String,
    pub categories: Categories,
    pub config_settings: ConfigSettings,
    pub web_vitals: WebVitals,
    pub audit_detail_id: ObjectId,
}

impl AuditSummary {
    /// A summary fresh out of a run, not yet given a storage id.
    pub fn new(
        site_id: ObjectId,
        site_run_id: i32,
        page_id: String,
        audit_profile_id: String,
        audit_profile: AuditProfile,
        fetch_time: String,
        categories: Categories,
        config_settings: ConfigSettings,
        web_vitals: WebVitals,
        audit_detail_id: ObjectId,
    ) -> (s: AuditSummary)
        ensures
            s.id is None,
            s.site_id == site_id,
            s.site_run_id == site_run_id,
            s.page_id == page_id,
            s.audit_profile_id == audit_profile_id,
            s.audit_profile == audit_profile,
            s.fetch_time == fetch_time,
            s.categories == categories,
            s.config_settings == config_settings,
            s.web_vitals == web_vitals,
            s.audit_detail_id == audit_detail_id,
    {
        AuditSummary {
            id: None,
            site_id,
            site_run_id,
            page_id,
            audit_profile_id,
            audit_profile,
            fetch_time,
            categories,
            config_settings,
            web_vitals,
            audit_detail_id,
        }
    }
}

/// A cookie forwarded to the audit tool when a page needs authentication.
#[derive(Debug, Clone)]
pub struct Cookie {
    pub name: String,
    pub value: String,
}

impl Cookie {
    pub fn new(name: String, value: String) -> (c: Cookie)
        ensures
            c.name == name,
            c.value == value,
    {
        Cookie { name, value }
    }
}

/// One web-vital audit of a summary, carrying the metric's canonical name
/// and its measured value, absent when the tool did not measure it.
fn metric_audit(id: &str, value: Option<i64>) -> (a: lh_models::AuditSimple)
    ensures
        a.id@ == id@,
        a.numeric_value == value,
        a.score is None,
{
    lh_models::AuditSimple {
        id: id.to_owned(),
        title: String::new(),
        description: String::new(),
        score: None,
        warnings: None,
        score_display_mode: None,
        numeric_value: value,
        numeric_unit: None,
        display_value: None,
    }
}

/// The summary's vitals carry exactly the canonical metric values: each one
/// measured is carried, each one absent stays absent.
pub open spec fn summary_vitals_match(w: WebVitals, v: CanonicalVitals) -> bool {
    &&& w.first_contentful_paint.numeric_value == v.first_contentful_paint
    &&& w.speed_index.numeric_value == v.speed_index
    &&& match w.largest_contentful_paint {
        Some(a) => a.numeric_value == v.largest_contentful_paint
            && v.largest_contentful_paint is Some,
        None => v.largest_contentful_paint is None,
    }
    &&& w.interactive.numeric_value == v.interactive
    &&& w.total_blocking_time.numeric_value == v.total_blocking_time
    &&& match w.cumulative_layout_shift {
        Some(a) => a.numeric_value == v.cumulative_layout_shift
            && v.cumulative_layout_shift is Some,
        None => v.cumulative_layout_shift is None,
    }
    &&& w.max_potential_fid.numeric_value == v.max_potential_fid
    &&& w.first_meaningful_paint.numeric_value == v.first_meaningful_paint
    &&& w.first_cpu_idle.numeric_value == v.first_cpu_idle
}

/// Projects a chosen canonical report down to the summary that history
/// keeps: score, web vitals and configuration subset, with the stored full
/// detail referenced by `audit_detail_id`. One-way and non-reversible.
pub fn summarize(
    report: &CanonicalReport,
    site_id: ObjectId,
    site_run_id: i32,
    page_id: String,
    audit_profile: AuditProfile,
    audit_detail_id: ObjectId,
) -> (s: AuditSummary)
    ensures
        s.id is None,
        s.site_id == site_id,
        s.site_run_id == site_run_id,
        s.page_id == page_id,
        s.audit_profile_id@ == audit_profile.id@,
        s.audit_profile == audit_profile,
        s.fetch_time@ == report.fetch_time@,
        s.categories.performance.score == report.overall_score,
        s.config_settings.throttling_method@ == report.throttling_method@,
        s.config_settings.emulated_form_factor@ == report.emulated_form_factor@,
        summary_vitals_match(s.web_vitals, report.web_vitals),
        s.audit_detail_id == audit_detail_id,
{
    let audit_profile_id = audit_profile.id.clone();
    let vitals = &report.web_vitals;
    let web_vitals = WebVitals {
        first_contentful_paint: metric_audit(
            "first-contentful-paint",
            vitals.first_contentful_paint,
        ),
        speed_index: metric_audit("speed-index", vitals.speed_index),
        largest_contentful_paint: match vitals.largest_contentful_paint {
            Some(v) => Some(metric_audit("largest-contentful-paint", Some(v))),
            None => None,
        },
        interactive: metric_audit("interactive", vitals.interactive),
        total_blocking_time: metric_audit("total-blocking-time", vitals.total_blocking_time),
        cumulative_layout_shift: match vitals.cumulative_layout_shift {
            Some(v) => Some(metric_audit("cumulative-layout-shift", Some(v))),
            None => None,
        },
        max_potential_fid: metric_audit("max-potential-fid", vitals.max_potential_fid),
        first_meaningful_paint: metric_audit(
            "first-meaningful-paint",
            vitals.first_meaningful_paint,
        ),
        first_cpu_idle: metric_audit("first-cpu-idle", vitals.first_cpu_idle),
    };
    let categories = Categories {
        performance: Performance {
            id: "performance".to_owned(),
            title: "Performance".to_owned(),
            score: report.overall_score,
        },
    };
    let config_settings = ConfigSettings {
        throttling_method: report.throttling_method.clone(),
        throttling: lh_models::Throttling {
            rtt_ms: 0,
            throughput_kbps: 0,
            request_latency_ms: 0,
            download_throughput_kbps: 0,
            upload_throughput_kbps: 0,
            cpu_slowdown_multiplier: 0,
        },
        emulated_form_factor: report.emulated_form_factor.clone(),
    };
    AuditSummary::new(
        site_id,
        site_run_id,
        page_id,
        audit_profile_id,
        audit_profile,
        report.fetch_time.clone(),
        categories,
        config_settings,
        web_vitals,
        audit_detail_id,
    )
}

} // verus!
