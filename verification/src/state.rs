//! The two stored record kinds: the per-chain `Ledger` root and the
//! immutable `Log` entries threaded through it.

use vstd::prelude::*;

use crate::hashing::log_hash;

verus! {

/// The most bytes a text field of a record may hold; the storage layout
/// reserves exactly this much per field.
pub const MAX_FIELD_LEN: usize = 100;

/// The all-zero 32-byte anchor a fresh chain starts from.
pub open spec fn zero_hash() -> Seq<u8> {
    Seq::new(32, |i: int| 0u8)
}

/// The root record of one hash chain: one per (authority, seed) pair.
#[derive(Clone, Copy, Debug)]
pub struct Ledger {
    /// The identity allowed to append; set at creation, immutable after.
    pub authority: [u8; 32],
    /// The digest of the most recently appended record, or the zero anchor
    /// while the chain is empty.
    pub last_hash: [u8; 32],
    /// How many records have ever been appended under this ledger.
    pub count: u64,
    /// The byte the addressing layer needs to re-derive this ledger's
    /// storage address; carries no chain meaning.
    pub bump: u8,
}

/// One appended event record, immutable once created.
#[derive(Clone, Debug)]
pub struct Log {
    /// Event time in seconds, supplied by the external clock at append time.
    pub timestamp: i64,
    /// The event's source address text, as UTF-8 bytes.
    pub ip_address: Vec<u8>,
    /// The kind of threat observed, as UTF-8 bytes.
    pub threat_type: Vec<u8>,
    /// What was done about it, as UTF-8 bytes.
    pub action_taken: Vec<u8>,
    /// The ledger's chain tip at the moment this record was appended.
    pub previous_hash: [u8; 32],
    /// The digest of this record's own content.
    pub current_hash: [u8; 32],
    /// The byte the addressing layer needs to re-derive this record's
    /// storage address; carries no chain meaning.
    pub bump: u8,
}

impl Log {
    /// A well-formed record: every text field fits its reserved space and
    /// the stored digest is exactly the digest of the record's content.
    pub open spec fn wf(self) -> bool {
        &&& self.ip_address@.len() <= MAX_FIELD_LEN
        &&& self.threat_type@.len() <= MAX_FIELD_LEN
        &&& self.action_taken@.len() <= MAX_FIELD_LEN
        &&& self.current_hash@ == log_hash(
            self.ip_address@,
            self.threat_type@,
            self.action_taken@,
            self.timestamp as int,
        )
    }
}

} // verus!
