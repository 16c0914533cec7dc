//! The canonical, version-independent record one audit attempt normalizes to.
//!
//! Every supported tool version maps onto this one shape: the page URLs, the
//! overall performance score, a fixed set of independently optional web-vital
//! metrics, a small configuration subset, and the detail sections that could
//! be recovered. A metric or section the raw report did not carry is `None`,
//! which is distinct from a measured zero.

use vstd::prelude::*;

use crate::lh_models::{NetworkRequest, Resource, ThirdPartyDetail, ThirdPartyEntity};
use crate::score::Score;

verus! {

/// The fixed set of web-vital metrics, each independently optional.
///
/// A value is in thousandths of the metric's unit; `None` means the tool did
/// not measure the metric, never that it measured zero.
#[derive(Debug, Clone, Copy, PartialEq, Eq, Structural)]
pub struct CanonicalVitals {
    pub first_contentful_paint: Option<i64>,
    pub speed_index: Option<i64>,
    pub largest_contentful_paint: Option<i64>,
    pub interactive: Option<i64>,
    pub total_blocking_time: Option<i64>,
    pub cumulative_layout_shift: Option<i64>,
    pub max_potential_fid: Option<i64>,
    pub first_meaningful_paint: Option<i64>,
    pub first_cpu_idle: Option<i64>,
}

/// The detail sections the normalizer recovers independently of one another.
#[derive(Debug, Clone, Copy, PartialEq, Eq, Structural)]
pub enum SectionId {
    ResourceSummary,
    NetworkRequests,
    ThirdPartySummary,
}

/// A non-fatal note that one detail section could not be recovered; the
/// section normalizes to absent and the rest of the report stands.
#[derive(Debug, Clone, Copy, PartialEq, Eq, Structural)]
pub struct RecoverableSectionError {
    pub section: SectionId,
}

/// One normalized audit attempt.
#[derive(Debug, Clone, PartialEq)]
pub struct CanonicalReport {
    /// The tool version the raw report declared.
    pub lighthouse_version: String,
    pub requested_url: String,
    pub final_url: String,
    pub fetch_time: String,
    pub overall_score: Score,
    pub web_vitals: CanonicalVitals,
    /// Configuration subset carried into summaries; empty when undeclared.
    pub throttling_method: String,
    pub emulated_form_factor: String,
    pub resource_summary: Option<Vec<Resource>>,
    pub network_requests: Option<Vec<NetworkRequest>>,
    pub third_party_summary: Option<Vec<ThirdPartyDetail>>,
}

/// A normalized report together with the sections that failed to recover.
#[derive(Debug, Clone, PartialEq)]
pub struct NormalizedReport {
    pub report: CanonicalReport,
    pub section_errors: Vec<RecoverableSectionError>,
}

/// Mathematical image of a [`Resource`] row.
pub struct ResourceV {
    pub resource_type: Seq<char>,
    pub label: Seq<char>,
    pub request_count: i32,
    pub transfer_size: Option<i64>,
}

impl DeepView for Resource {
    type V = ResourceV;

    open spec fn deep_view(&self) -> ResourceV {
        ResourceV {
            resource_type: self.resource_type@,
            label: self.label@,
            request_count: self.request_count,
            transfer_size: self.transfer_size,
        }
    }
}

/// Mathematical image of a [`NetworkRequest`] row.
pub struct NetworkRequestV {
    pub url: Seq<char>,
    pub start_time: Option<i64>,
    pub end_time: Option<i64>,
    pub finished: Option<bool>,
    pub transfer_size: Option<i64>,
    pub resource_size: i64,
    pub status_code: i16,
    pub mime_type: Seq<char>,
    pub resource_type: Option<Seq<char>>,
}

impl DeepView for NetworkRequest {
    type V = NetworkRequestV;

    open spec fn deep_view(&self) -> NetworkRequestV {
        NetworkRequestV {
            url: self.url@,
            start_time: self.start_time,
            end_time: self.end_time,
            finished: self.finished,
            transfer_size: self.transfer_size,
            resource_size: self.resource_size,
            status_code: self.status_code,
            mime_type: self.mime_type@,
            resource_type: match self.resource_type {
                Some(ref s) => Some(s@),
                None => None,
            },
        }
    }
}

/// Mathematical image of a [`ThirdPartyEntity`].
pub struct ThirdPartyEntityV {
    pub entity_type: Seq<char>,
    pub text: Seq<char>,
    pub url: Seq<char>,
}

impl DeepView for ThirdPartyEntity {
    type V = ThirdPartyEntityV;

    open spec fn deep_view(&self) -> ThirdPartyEntityV {
        ThirdPartyEntityV {
            entity_type: self.entity_type@,
            text: self.text@,
            url: self.url@,
        }
    }
}

/// Mathematical image of a [`ThirdPartyDetail`] row.
pub struct ThirdPartyDetailV {
    pub entity: ThirdPartyEntityV,
    pub transfer_size: i64,
    pub main_thread_time: i64,
    pub blocking_time: i64,
}

impl DeepView for ThirdPartyDetail {
    type V = ThirdPartyDetailV;

    open spec fn deep_view(&self) -> ThirdPartyDetailV {
        ThirdPartyDetailV {
            entity: self.entity.deep_view(),
            transfer_size: self.transfer_size,
            main_thread_time: self.main_thread_time,
            blocking_time: self.blocking_time,
        }
    }
}

/// Mathematical image of a [`CanonicalReport`].
pub struct CanonicalReportV {
    pub lighthouse_version: Seq<char>,
    pub requested_url: Seq<char>,
    pub final_url: Seq<char>,
    pub fetch_time: Seq<char>,
    pub overall_score: Score,
    pub web_vitals: CanonicalVitals,
    pub throttling_method: Seq<char>,
    pub emulated_form_factor: Seq<char>,
    pub resource_summary: Option<Seq<ResourceV>>,
    pub network_requests: Option<Seq<NetworkRequestV>>,
    pub third_party_summary: Option<Seq<ThirdPartyDetailV>>,
}

impl DeepView for CanonicalReport {
    type V = CanonicalReportV;

    open spec fn deep_view(&self) -> CanonicalReportV {
        CanonicalReportV {
            lighthouse_version: self.lighthouse_version@,
            requested_url: self.requested_url@,
            final_url: self.final_url@,
            fetch_time: self.fetch_time@,
            overall_score: self.overall_score,
            web_vitals: self.web_vitals,
            throttling_method: self.throttling_method@,
            emulated_form_factor: self.emulated_form_factor@,
            resource_summary: self.resource_summary.deep_view(),
            network_requests: self.network_requests.deep_view(),
            third_party_summary: self.third_party_summary.deep_view(),
        }
    }
}

/// Mathematical image of a [`NormalizedReport`].
pub struct NormalizedReportV {
    pub report: CanonicalReportV,
    pub section_errors: Seq<RecoverableSectionError>,
}

impl DeepView for NormalizedReport {
    type V = NormalizedReportV;

    open spec fn deep_view(&self) -> NormalizedReportV {
        NormalizedReportV {
            report: self.report.deep_view(),
            section_errors: self.section_errors.deep_view(),
        }
    }
}

impl DeepView for RecoverableSectionError {
    type V = RecoverableSectionError;

    open spec fn deep_view(&self) -> RecoverableSectionError {
        *self
    }
}

} // verus!
