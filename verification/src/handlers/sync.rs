//! Request and response shapes of the sync endpoints.
use vstd::prelude::*;

verus! {

pub struct CreateSyncKeyRequest {
    pub label: Option<String>,
    /// Validity window in hours. Clamped to 1..=168 (one week).
    pub ttl_hours: Option<u64>,
}

pub struct CreatedSyncKey {
    pub id: i64,
    pub label: String,
    pub expires_at: String,
    /// The full `bsk_…` secret. Returned exactly once and never stored.
    pub key: String,
}

pub struct SyncKeyInfo {
    pub id: i64,
    pub label: String,
    pub mode: String,
    pub created_at: String,
    pub expires_at: String,
    pub revoked_at: Option<String>,
    pub last_used_at: Option<String>,
}

} // verus!
