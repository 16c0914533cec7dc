//! Resolves an audit profile to the stable identity its history is keyed by.
//!
//! An explicit id, when given, is the identity verbatim. Otherwise the
//! identity is the structured composite of device and tool version — a
//! composite key with explicit equality, not a formatted string, so no
//! formatting change can ever collide two identities. The derivation is a
//! pure function of its inputs: it is stable across calls and over time.
//! The enabled flag and blocked-URL patterns are overrides outside the
//! identity by design: profiles differing only there share one slot.

use vstd::prelude::*;

use crate::AuditProfile;

verus! {

/// The identity of an audit profile: an explicit id used verbatim, or the
/// composite of device and tool version.
#[derive(Debug)]
pub enum ProfileKey {
    Explicit(String),
    Derived { device: String, lighthouse_version: String },
}

/// Mathematical image of a [`ProfileKey`].
pub enum ProfileKeyV {
    Explicit(Seq<char>),
    Derived { device: Seq<char>, lighthouse_version: Seq<char> },
}

impl DeepView for ProfileKey {
    type V = ProfileKeyV;

    open spec fn deep_view(&self) -> ProfileKeyV {
        match self {
            ProfileKey::Explicit(id) => ProfileKeyV::Explicit(id@),
            ProfileKey::Derived { device, lighthouse_version } => ProfileKeyV::Derived {
                device: device@,
                lighthouse_version: lighthouse_version@,
            },
        }
    }
}

impl PartialEq for ProfileKey {
    /// Two identities are equal exactly when their contents are.
    fn eq(&self, other: &ProfileKey) -> (r: bool) {
        match (self, other) {
            (ProfileKey::Explicit(a), ProfileKey::Explicit(b)) => *a == *b,
            (
                ProfileKey::Derived { device: da, lighthouse_version: va },
                ProfileKey::Derived { device: db, lighthouse_version: vb },
            ) => *da == *db && *va == *vb,
            _ => false,
        }
    }
}

impl vstd::std_specs::cmp::PartialEqSpecImpl for ProfileKey {
    open spec fn obeys_eq_spec() -> bool {
        true
    }

    open spec fn eq_spec(&self, other: &ProfileKey) -> bool {
        self.deep_view() == other.deep_view()
    }
}

impl Eq for ProfileKey {

}

impl ProfileKey {
    /// Decides identity equality; equivalent to `==`.
    pub fn key_eq(&self, other: &ProfileKey) -> (r: bool)
        ensures
            r == (self.deep_view() == other.deep_view()),
    {
        match (self, other) {
            (ProfileKey::Explicit(a), ProfileKey::Explicit(b)) => *a == *b,
            (
                ProfileKey::Derived { device: da, lighthouse_version: va },
                ProfileKey::Derived { device: db, lighthouse_version: vb },
            ) => *da == *db && *va == *vb,
            _ => false,
        }
    }
}

/// The identity `resolve` derives, as a function of its inputs alone.
pub open spec fn resolve_spec(
    device: Seq<char>,
    lighthouse_version: Seq<char>,
    explicit_id: Option<Seq<char>>,
) -> ProfileKeyV {
    match explicit_id {
        Some(id) => ProfileKeyV::Explicit(id),
        None => ProfileKeyV::Derived { device, lighthouse_version },
    }
}

/// Derives the stable identity for a device and tool version, unless an
/// explicit id overrides it.
pub fn resolve(device: String, lighthouse_version: String, explicit_id: Option<String>) -> (k:
    ProfileKey)
    ensures
        k.deep_view() == resolve_spec(device@, lighthouse_version@, explicit_id.deep_view()),
{
    match explicit_id {
        Some(id) => ProfileKey::Explicit(id),
        None => ProfileKey::Derived { device, lighthouse_version },
    }
}

/// Resolves a whole stored profile for a device and tool version.
///
/// The profile's identity is exactly what [`resolve`] derives: an explicit
/// id (which, being an externally minted identifier, is never empty) is
/// kept verbatim, and without one the profile's id stays empty so that its
/// identity is the device/version composite. Overrides start unset; they
/// never enter the identity.
pub fn resolve_profile(
    device: String,
    lighthouse_version: String,
    explicit_id: Option<String>,
) -> (p: AuditProfile)
    requires
        explicit_id matches Some(id) ==> id@.len() > 0,
    ensures
        p.identity_spec() == resolve_spec(device@, lighthouse_version@, explicit_id.deep_view()),
        p.device == device,
        p.lighthouse_version == lighthouse_version,
        p.enabled is None,
        p.blocked_url_patterns is None,
{
    let id = match explicit_id {
        Some(id) => id,
        None => String::new(),
    };
    AuditProfile::new(id, String::new(), device, lighthouse_version)
}

/// Resolution is deterministic: the same device, tool version and explicit
/// id resolve to the same identity on every call.
pub proof fn lemma_resolve_deterministic(
    device1: Seq<char>,
    lighthouse_version1: Seq<char>,
    explicit_id1: Option<Seq<char>>,
    device2: Seq<char>,
    lighthouse_version2: Seq<char>,
    explicit_id2: Option<Seq<char>>,
)
    requires
        device1 == device2,
        lighthouse_version1 == lighthouse_version2,
        explicit_id1 == explicit_id2,
    ensures
        resolve_spec(device1, lighthouse_version1, explicit_id1) == resolve_spec(
            device2,
            lighthouse_version2,
            explicit_id2,
        ),
{
}

impl AuditProfile {
    /// The identity of a stored profile: its id when it carries one, else
    /// the composite of its device and tool version.
    pub open spec fn identity_spec(&self) -> ProfileKeyV {
        if self.id@.len() > 0 {
            ProfileKeyV::Explicit(self.id@)
        } else {
            ProfileKeyV::Derived {
                device: self.device@,
                lighthouse_version: self.lighthouse_version@,
            }
        }
    }

    /// Resolves this profile's identity.
    pub fn identity(&self) -> (k: ProfileKey)
        ensures
            k.deep_view() == self.identity_spec(),
    {
        if self.id.as_str().is_empty() {
            ProfileKey::Derived {
                device: self.device.clone(),
                lighthouse_version: self.lighthouse_version.clone(),
            }
        } else {
            ProfileKey::Explicit(self.id.clone())
        }
    }
}

/// The overrides stand outside the identity: profiles that agree on id,
/// device and tool version have one identity, whatever their enabled flags
/// and blocked-URL patterns say.
pub proof fn lemma_identity_ignores_overrides(p: AuditProfile, q: AuditProfile)
    requires
        p.id == q.id,
        p.device == q.device,
        p.lighthouse_version == q.lighthouse_version,
    ensures
        p.identity_spec() == q.identity_spec(),
{
}

} // verus!
