//! The opaque record identifier this service stores but never mints.
//!
//! Sites, summaries and detail records are keyed by identifiers that an
//! external collaborator creates; the library only carries them through.

use vstd::prelude::*;

verus! {

/// Relies on bson's `oid::ObjectId`: an externally minted, opaque, stable
/// record identifier. The library never reads into one, it only stores and
/// moves them, so the type is declared and nothing of its behaviour is
/// assumed.
#[verifier::external_type_specification]
#[verifier::external_body]
pub struct ExObjectId(bson::oid::ObjectId);

} // verus!
