//! Ledger creation and record append: the two state transitions of the
//! chain, with the append-only, linkage and authorization guarantees.
//!
//! A `LedgerChain` holds one ledger together with every record stored under
//! it, indexed by sequence number; the storage slot for sequence number `n`
//! is occupied exactly when `n` is below the ledger's counter. First-writer
//! wins: an append names the slot its caller derived, and only the slot
//! equal to the live counter can still be claimed.

use vstd::prelude::*;

use crate::errors::LogError;
use crate::hashing::{build_content, log_hash, sha256_digest};
use crate::state::{Ledger, Log, zero_hash, MAX_FIELD_LEN};

verus! {

/// One ledger and the records appended under it, in sequence order.
#[derive(Clone, Debug)]
pub struct LedgerChain {
    /// The chain's root record.
    pub ledger: Ledger,
    /// The stored records; `logs[n]` occupies the slot derived from
    /// sequence number `n`.
    pub logs: Vec<Log>,
}

impl LedgerChain {
    /// The chain's standing invariant: the counter equals the number of
    /// stored records, every record is well formed, each record's
    /// `previous_hash` is its predecessor's `current_hash` (the zero anchor
    /// for the first), and the ledger's tip is the last record's digest (the
    /// zero anchor while the chain is empty).
    pub open spec fn wf(self) -> bool {
        &&& self.ledger.count == self.logs@.len()
        &&& forall|i: int| 0 <= i < self.logs@.len() ==> (#[trigger] self.logs@[i]).wf()
        &&& forall|i: int|
            1 <= i < self.logs@.len() ==> (#[trigger] self.logs@[i]).previous_hash@
                == self.logs@[i - 1].current_hash@
        &&& self.logs@.len() > 0 ==> self.logs@[0].previous_hash@ == zero_hash()
        &&& self.logs@.len() == 0 ==> self.ledger.last_hash@ == zero_hash()
        &&& self.logs@.len() > 0 ==> self.ledger.last_hash@ == self.logs@[self.logs@.len()
            - 1].current_hash@
    }
}

/// Everything a ledger creation is handed by its surroundings: the signing
/// identity that will own the ledger, and the derivation byte the
/// addressing layer computed for the ledger's storage address.
#[derive(Clone, Copy, Debug)]
pub struct CreateLedger {
    /// The caller's identity; becomes the new ledger's authority.
    pub authority: [u8; 32],
    /// The derivation byte of the ledger's storage address.
    pub ledger_bump: u8,
}

/// The content fields of one append request.
#[derive(Clone, Debug)]
pub struct AddLogArgs {
    /// The event's source address text, as UTF-8 bytes.
    pub ip_address: Vec<u8>,
    /// The kind of threat observed, as UTF-8 bytes.
    pub threat_type: Vec<u8>,
    /// What was done about it, as UTF-8 bytes.
    pub action_taken: Vec<u8>,
}

/// Everything one append is handed by its surroundings: the chain to append
/// to, the caller's claimed identity, the sequence slot whose storage
/// address the caller derived, and that address's derivation byte.
#[derive(Clone, Debug)]
pub struct AddLog {
    /// The chain being appended to.
    pub chain: LedgerChain,
    /// The caller's identity; must equal the ledger's authority.
    pub authority: [u8; 32],
    /// The sequence number whose storage address the caller derived from
    /// the counter it last read. Only the slot equal to the live counter is
    /// still creatable: every lower slot is already populated.
    pub log_slot: u64,
    /// The derivation byte of the new record's storage address.
    pub log_bump: u8,
}

/// Whether the append's caller is the ledger's stored authority.
pub open spec fn authorized(pre: AddLog) -> bool {
    pre.authority@ == pre.chain.ledger.authority@
}

/// Whether every text field of the request fits its reserved space.
pub open spec fn fields_fit(args: AddLogArgs) -> bool {
    &&& args.ip_address@.len() <= MAX_FIELD_LEN
    &&& args.threat_type@.len() <= MAX_FIELD_LEN
    &&& args.action_taken@.len() <= MAX_FIELD_LEN
}

/// Whether the slot the caller derived is still the first free one.
pub open spec fn slot_free(pre: AddLog) -> bool {
    pre.log_slot == pre.chain.ledger.count
}

/// Whether the counter can advance without wrapping.
pub open spec fn counter_has_room(pre: AddLog) -> bool {
    pre.chain.ledger.count < u64::MAX
}

/// What an append returns, decided from its inputs alone: the first failing
/// check in the order the checks run, or success when all pass.
pub open spec fn add_log_result(pre: AddLog, args: AddLogArgs) -> Result<(), LogError> {
    if !authorized(pre) {
        Err(LogError::AuthorizationMismatch)
    } else if !fields_fit(args) {
        Err(LogError::FieldTooLong)
    } else if !slot_free(pre) {
        Err(LogError::AddressCollision)
    } else if !counter_has_room(pre) {
        Err(LogError::CounterOverflow)
    } else {
        Ok(())
    }
}

/// What a successful append leaves behind: exactly one new record at the
/// end, committing to the given content and to the old chain tip, with the
/// ledger's tip moved to the new record's digest and its counter advanced
/// by one; nothing else changes.
pub open spec fn add_log_ok_post(pre: AddLog, post: AddLog, args: AddLogArgs, ts: i64) -> bool {
    let lg = post.chain.logs@.last();
    &&& post.chain.logs@ == pre.chain.logs@.push(lg)
    &&& lg.timestamp == ts
    &&& lg.ip_address@ == args.ip_address@
    &&& lg.threat_type@ == args.threat_type@
    &&& lg.action_taken@ == args.action_taken@
    &&& lg.previous_hash@ == pre.chain.ledger.last_hash@
    &&& lg.current_hash@ == log_hash(
        args.ip_address@,
        args.threat_type@,
        args.action_taken@,
        ts as int,
    )
    &&& lg.bump == pre.log_bump
    &&& post.chain.ledger.last_hash@ == lg.current_hash@
    &&& post.chain.ledger.count == pre.chain.ledger.count + 1
    &&& post.chain.ledger.authority == pre.chain.ledger.authority
    &&& post.chain.ledger.bump == pre.chain.ledger.bump
    &&& post.authority == pre.authority
    &&& post.log_slot == pre.log_slot
    &&& post.log_bump == pre.log_bump
}

/// Compares two 32-byte identities.
pub fn bytes32_eq(a: &[u8; 32], b: &[u8; 32]) -> (r: bool)
    ensures
        r == (a@ == b@),
{
    let mut i: usize = 0;
    while i < 32
        invariant
            i <= 32,
            forall|j: int| 0 <= j < i ==> a@[j] == b@[j],
        decreases 32 - i,
    {
        if a[i] != b[i] {
            assert(a@ != b@);
            return false;
        }
        i += 1;
    }
    assert(a@ =~= b@);
    true
}

impl CreateLedger {
    /// Creates the ledger this context describes: authority as given, the
    /// zero anchor for a tip, a counter at zero, and no records. The seed
    /// only discriminates storage addresses for one authority; the full
    /// 16-bit space is valid and none of it reaches the chain state.
    pub fn create_ledger(&self, seed: u16) -> (c: LedgerChain)
        ensures
            c.wf(),
            c.ledger.authority == self.authority,
            c.ledger.last_hash@ == zero_hash(),
            c.ledger.count == 0,
            c.ledger.bump == self.ledger_bump,
            c.logs@.len() == 0,
    {
        let ledger = Ledger {
            authority: self.authority,
            last_hash: [0u8; 32],
            count: 0,
            bump: self.ledger_bump,
        };
        let c = LedgerChain { ledger, logs: Vec::new() };
        proof {
            assert(c.ledger.last_hash@ =~= zero_hash());
        }
        c
    }
}

impl AddLog {
    /// Appends one record to the chain, or rejects the attempt and leaves
    /// every part of the state untouched. The checks run in order:
    /// authorization, field lengths, slot occupancy, counter room. On
    /// success the new record commits to the request's content and to the
    /// old chain tip, and the ledger's tip and counter advance.
    pub fn add_log(&mut self, args: AddLogArgs, timestamp: i64) -> (r: Result<(), LogError>)
        requires
            old(self).chain.wf(),
        ensures
            final(self).chain.wf(),
            r == add_log_result(*old(self), args),
            r is Err ==> *final(self) == *old(self),
            r is Ok ==> add_log_ok_post(*old(self), *final(self), args, timestamp),
    {
        if !bytes32_eq(&self.authority, &self.chain.ledger.authority) {
            return Err(LogError::AuthorizationMismatch);
        }
        if args.ip_address.len() > MAX_FIELD_LEN || args.threat_type.len() > MAX_FIELD_LEN
            || args.action_taken.len() > MAX_FIELD_LEN {
            return Err(LogError::FieldTooLong);
        }
        if self.log_slot != self.chain.ledger.count {
            return Err(LogError::AddressCollision);
        }
        if self.chain.ledger.count == u64::MAX {
            return Err(LogError::CounterOverflow);
        }

        let content = build_content(
            &args.ip_address,
            &args.threat_type,
            &args.action_taken,
            timestamp,
        );
        let current_hash = sha256_digest(content.as_slice());

        let log = Log {
            timestamp,
            ip_address: args.ip_address,
            threat_type: args.threat_type,
            action_taken: args.action_taken,
            previous_hash: self.chain.ledger.last_hash,
            current_hash,
            bump: self.log_bump,
        };
        let ghost pre_logs = self.chain.logs@;
        let ghost pre_tip = self.chain.ledger.last_hash@;
        self.chain.logs.push(log);
        self.chain.ledger.last_hash = current_hash;
        self.chain.ledger.count = self.chain.ledger.count + 1;
        proof {
            let post = self.chain;
            assert(post.logs@.last().wf());
            assert forall|i: int| 0 <= i < post.logs@.len() implies (
            #[trigger] post.logs@[i]).wf() by {
                if i < pre_logs.len() {
                    assert(post.logs@[i] == pre_logs[i]);
                }
            }
            assert forall|i: int| 1 <= i < post.logs@.len() implies (
            #[trigger] post.logs@[i]).previous_hash@ == post.logs@[i - 1].current_hash@ by {
                if i < pre_logs.len() {
                    assert(post.logs@[i] == pre_logs[i]);
                    assert(post.logs@[i - 1] == pre_logs[i - 1]);
                } else {
                    assert(post.logs@[i] == log);
                    if pre_logs.len() > 0 {
                        assert(post.logs@[i - 1] == pre_logs[pre_logs.len() - 1]);
                        assert(log.previous_hash@ == pre_tip);
                    }
                }
            }
            if pre_logs.len() == 0 {
                assert(post.logs@[0] == log);
            }
        }
        Ok(())
    }
}

} // verus!
