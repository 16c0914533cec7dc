//! Version-independent shapes of a full page-speed audit report.
//!
//! These structs mirror the audit tool's report layout: one overall
//! performance category, a fixed family of metric audits, and a number of
//! optional detail tables. Fractional quantities (milliseconds, byte
//! estimates, ratios) are fixed-point integers in thousandths of a unit;
//! scores use [`crate::score::Score`].

use vstd::prelude::*;

use crate::score::Score;

verus! {

/// The outcome of one run over several measurement attempts: the chosen
/// score, where it stands in the attempt list, and the full list itself.
#[derive(Debug)]
pub struct AllAttemptReports {
    pub best_score: Score,
    pub best_score_index: usize,
    pub reports: Vec<crate::canonical::CanonicalReport>,
}

/// A full audit report as the tool emits it, already shaped into the
/// version-independent model.
pub struct Report {
    pub lighthouse_version: String,
    pub requested_url: String,
    pub final_url: String,
    pub fetch_time: String,
    pub environment: Environment,
    pub audits: Audits,
    pub config_settings: ConfigSettings,
    pub categories: Categories,
}

/// Details of the machine and network the audit ran on.
#[derive(Debug, Clone)]
pub struct Environment {}

/// The fixed family of audits a report may carry. A metric the tool did not
/// measure keeps `numeric_value: None`, distinct from a measured zero.
pub struct Audits {
    pub first_contentful_paint: AuditSimple,
    pub largest_contentful_paint: Option<AuditSimple>,
    pub largest_contentful_paint_element: Option<AuditTable<Node>>,
    pub first_meaningful_paint: AuditSimple,
    pub speed_index: AuditSimple,
    pub total_blocking_time: AuditSimple,
    pub max_potential_fid: AuditSimple,
    pub cumulative_layout_shift: Option<AuditSimple>,
    pub server_response_time: Option<AuditSimple>,
    pub first_cpu_idle: AuditSimple,
    pub interactive: AuditSimple,
    pub network_requests: AuditTable<NetworkRequest>,
    pub network_rtt: AuditTable<NetworkRttItem>,
    pub main_thread_tasks: AuditTable<Task>,
    pub metrics: AuditSimple,
    pub resource_summary: AuditTable<Resource>,
    pub third_party_summary: AuditTable<ThirdPartyDetail>,
    pub screenshot_thumbnails: Audit<Filmstrip>,
    pub uses_responsive_images: Audit<Opportunity>,
    pub uses_optimized_images: Audit<Opportunity>,
    pub uses_webp_images: Audit<Opportunity>,
    pub offscreen_images: Audit<Opportunity>,
    pub uses_http2: Option<Audit<Opportunity>>,
    pub bootup_time: Option<AuditTable<ScriptExecutionItem>>,
    pub main_thread_work_breakdown: Option<AuditTable<WorkBreakdownItem>>,
    pub uses_rel_preconnect: Option<AuditSimple>,
    pub network_server_latency: Option<AuditTable<LatencyItem>>,
    pub unminified_css: Option<Audit<Opportunity>>,
    pub unminified_javascript: Option<Audit<Opportunity>>,
    pub unused_css_rules: Option<Audit<Opportunity>>,
    pub unused_javascript: Option<Audit<Opportunity>>,
    pub render_blocking_resources: Option<Audit<Opportunity>>,
    pub uses_long_cache_ttl: Option<AuditTable<CachePolicyItem>>,
    pub user_timings: Option<AuditTable<UserTiming>>,
}

/// One audit without a details section. `numeric_value` is in thousandths;
/// `None` means the audit did not measure a value.
#[derive(Debug, Clone)]
pub struct AuditSimple {
    pub id: String,
    pub title: String,
    pub description: String,
    pub score: Option<Score>,
    pub warnings: Option<Vec<String>>,
    pub score_display_mode: Option<String>,
    pub numeric_value: Option<i64>,
    pub numeric_unit: Option<String>,
    pub display_value: Option<String>,
}

/// One audit together with its details section of shape `T`.
pub struct Audit<T> {
    pub id: String,
    pub title: String,
    pub description: String,
    pub score: Option<Score>,
    pub warnings: Option<Vec<String>>,
    pub score_display_mode: Option<String>,
    pub numeric_value: Option<i64>,
    pub numeric_unit: Option<String>,
    pub display_value: Option<String>,
    pub details: T,
}

/// An audit whose details are a table of rows of shape `T`.
pub type AuditTable<T> = Audit<Table<T>>;

/// A details table: optional column headings and the rows themselves.
pub struct Table<T> {
    pub headings: Option<Vec<TableHeading>>,
    pub items: Vec<T>,
}

/// One column heading of a details table.
#[derive(Debug, Clone)]
pub struct TableHeading {
    pub key: String,
    pub item_type: String,
    pub display_unit: Option<String>,
    pub text: String,
}

/// An opportunity audit's details: estimated savings per resource.
pub struct Opportunity {
    pub headings: Option<Vec<OpportunityColumnHeading>>,
    pub items: Vec<OpportunityItem>,
}

/// One column heading of an opportunity table.
#[derive(Debug, Clone)]
pub struct OpportunityColumnHeading {
    pub key: String,
    pub value_type: String,
    pub label: String,
}

/// One row of an opportunity table; wasted quantities are in thousandths.
#[derive(Debug, Clone)]
pub struct OpportunityItem {
    pub url: String,
    pub total_bytes: Option<i64>,
    pub wasted_bytes: Option<i64>,
    pub wasted_ms: Option<i64>,
    pub wasted_percent: Option<i64>,
    pub request_start_time: Option<i64>,
    pub protocol: Option<String>,
}

/// One fetched resource; times are in thousandths of a millisecond unit.
#[derive(Debug, Clone, PartialEq)]
pub struct NetworkRequest {
    pub url: String,
    pub start_time: Option<i64>,
    pub end_time: Option<i64>,
    pub finished: Option<bool>,
    pub transfer_size: Option<i64>,
    pub resource_size: i64,
    pub status_code: i16,
    pub mime_type: String,
    pub resource_type: Option<String>,
}

/// Round-trip time measured towards one origin, in thousandths.
#[derive(Debug, Clone)]
pub struct NetworkRttItem {
    pub origin: String,
    pub rtt: i64,
}

/// One main-thread task; duration and start time in thousandths.
#[derive(Debug, Clone, Copy)]
pub struct Task {
    pub duration: i64,
    pub start_time: i64,
}

/// Aggregate transfer figures for one class of resources.
#[derive(Debug, Clone, PartialEq)]
pub struct Resource {
    pub resource_type: String,
    pub label: String,
    pub request_count: i32,
    pub transfer_size: Option<i64>,
}

/// A reference to a DOM node named by an audit.
#[derive(Debug, Clone)]
pub struct Node {
    pub node: NodeValue,
}

/// The DOM node itself: selector, snippet and label as the tool saw them.
#[derive(Debug, Clone)]
pub struct NodeValue {
    pub node_type: String,
    pub path: Option<String>,
    pub selector: Option<String>,
    pub snippet: Option<String>,
    pub node_label: Option<String>,
}

/// Cost attributed to one third-party entity; times in thousandths.
#[derive(Debug, Clone, PartialEq)]
pub struct ThirdPartyDetail {
    pub entity: ThirdPartyEntity,
    pub transfer_size: i64,
    pub main_thread_time: i64,
    pub blocking_time: i64,
}

/// The third-party entity a cost is attributed to.
#[derive(Debug, Clone, PartialEq)]
pub struct ThirdPartyEntity {
    pub entity_type: String,
    pub text: String,
    pub url: String,
}

/// A filmstrip of page-load screenshots.
pub struct Filmstrip {
    pub scale: i64,
    pub items: Vec<FilmstripItem>,
}

/// One screenshot of a filmstrip; the timestamp is in thousandths.
#[derive(Debug, Clone)]
pub struct FilmstripItem {
    pub timing: i64,
    pub timestamp: i64,
    pub data: String,
}

/// Script execution cost of one source, in thousandths of a millisecond.
#[derive(Debug, Clone)]
pub struct ScriptExecutionItem {
    pub url: String,
    pub total: i64,
    pub scripting: i64,
    pub script_parse_compile: i64,
}

/// Main-thread work attributed to one group, in thousandths.
#[derive(Debug, Clone)]
pub struct WorkBreakdownItem {
    pub group: String,
    pub group_label: String,
    pub duration: i64,
}

/// Server latency observed towards one origin, in thousandths.
#[derive(Debug, Clone)]
pub struct LatencyItem {
    pub origin: String,
    pub server_response_time: i64,
}

/// Cache-lifetime findings for one resource; wasted bytes in thousandths.
#[derive(Debug, Clone)]
pub struct CachePolicyItem {
    pub url: String,
    pub cache_lifetime_ms: i64,
    pub total_bytes: i64,
    pub wasted_bytes: i64,
}

/// One user-timing mark or measure; times in thousandths.
#[derive(Debug, Clone)]
pub struct UserTiming {
    pub name: String,
    pub start_time: i64,
    pub duration: Option<i64>,
    pub timing_type: String,
}

/// The audit tool's configuration as echoed in a report.
pub struct ConfigSettings {
    pub throttling_method: String,
    pub throttling: Throttling,
    pub audit_mode: bool,
    pub gather_mode: bool,
    pub disable_storage_reset: bool,
    pub emulated_form_factor: String,
    pub internal_disable_device_screen_emulation: Option<bool>,
    pub channel: String,
    pub locale: String,
    pub only_categories: Vec<String>,
}

/// Simulated network and CPU throttling; rates in thousandths.
#[derive(Debug, Clone, Copy)]
pub struct Throttling {
    pub rtt_ms: i32,
    pub throughput_kbps: i64,
    pub request_latency_ms: i64,
    pub download_throughput_kbps: i64,
    pub upload_throughput_kbps: i16,
    pub cpu_slowdown_multiplier: i16,
}

/// The report's category block; this service tracks performance only.
pub struct Categories {
    pub performance: Performance,
}

/// The performance category: its overall score and the audits behind it.
pub struct Performance {
    pub id: String,
    pub title: String,
    pub score: Score,
    pub audit_refs: Vec<AuditRef>,
}

/// How much one audit weighs within its category.
#[derive(Debug, Clone)]
pub struct AuditRef {
    pub id: String,
    pub weight: i8,
    pub group: Option<String>,
}

} // verus!
