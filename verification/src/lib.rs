//! A tamper-evident, append-only audit log: a chain of security-event
//! records in which each record stores the digest of its predecessor, so a
//! ledger's history can be checked but never silently altered or reordered.
//!
//! One authority owns each ledger; creation anchors the chain at 32 zero
//! bytes, and every append commits a record to its content and to the
//! previous chain tip, advancing the tip and the counter. Storage
//! addressing, signature checking and the clock are external collaborators:
//! the contexts in [`chain`] carry what they hand in.

use vstd::prelude::*;

pub mod chain;
pub mod errors;
pub mod hashing;
pub mod state;

use crate::chain::{
    add_log_ok_post, add_log_result, fields_fit, AddLog, AddLogArgs, CreateLedger, LedgerChain,
};
use crate::errors::LogError;
use crate::hashing::{content_bytes, sha256_of};
use crate::state::zero_hash;

verus! {

/// Creates a new ledger for the context's authority: zero-anchored tip,
/// counter at zero, no records. `seed` only discriminates storage addresses
/// among one authority's ledgers; any 16-bit value is valid.
pub fn create_ledger(ctx: &CreateLedger, seed: u16) -> (c: LedgerChain)
    ensures
        c.wf(),
        c.ledger.authority == ctx.authority,
        c.ledger.last_hash@ == zero_hash(),
        c.ledger.count == 0,
        c.ledger.bump == ctx.ledger_bump,
        c.logs@.len() == 0,
{
    ctx.create_ledger(seed)
}

/// Appends one record to the context's chain, or rejects the attempt with
/// the first failing check and no state change. See
/// [`chain::add_log_result`] for exactly which input is owed which outcome
/// and [`chain::add_log_ok_post`] for what a success leaves behind.
pub fn add_log(ctx: &mut AddLog, args: AddLogArgs, timestamp: i64) -> (r: Result<(), LogError>)
    requires
        old(ctx).chain.wf(),
    ensures
        final(ctx).chain.wf(),
        r == add_log_result(*old(ctx), args),
        r is Err ==> *final(ctx) == *old(ctx),
        r is Ok ==> add_log_ok_post(*old(ctx), *final(ctx), args, timestamp),
{
    ctx.add_log(args, timestamp)
}

/// Chain linkage: in every well-formed chain, each record's
/// `previous_hash` is its predecessor's `current_hash`, and the first
/// record's `previous_hash` is the genesis zero anchor.
pub proof fn lemma_chain_linkage(c: LedgerChain)
    requires
        c.wf(),
    ensures
        forall|i: int|
            1 <= i < c.logs@.len() ==> (#[trigger] c.logs@[i]).previous_hash@
                == c.logs@[i - 1].current_hash@,
        c.logs@.len() > 0 ==> c.logs@[0].previous_hash@ == zero_hash(),
{
}

/// Content binding: in every well-formed chain, each record's
/// `current_hash` is exactly the digest of its content — the three text
/// fields in order followed by the decimal timestamp — and nothing else.
pub proof fn lemma_content_binding(c: LedgerChain, i: int)
    requires
        c.wf(),
        0 <= i < c.logs@.len(),
    ensures
        c.logs@[i].current_hash@ == sha256_of(
            content_bytes(
                c.logs@[i].ip_address@,
                c.logs@[i].threat_type@,
                c.logs@[i].action_taken@,
                c.logs@[i].timestamp as int,
            ),
        ),
{
    assert(c.logs@[i].wf());
}

/// Append-only: a successful append adds exactly one record at the end and
/// leaves every previously stored record exactly as it was.
pub proof fn lemma_append_only(pre: AddLog, post: AddLog, args: AddLogArgs, ts: i64)
    requires
        add_log_ok_post(pre, post, args, ts),
    ensures
        post.chain.logs@.len() == pre.chain.logs@.len() + 1,
        forall|i: int|
            0 <= i < pre.chain.logs@.len() ==> post.chain.logs@[i] == pre.chain.logs@[i],
{
}

/// Monotonic counter: a successful append advances the counter by exactly
/// one, and a rejected one leaves it as it was; the counter never moves
/// otherwise, so it never decreases and never skips.
pub proof fn lemma_counter_step(pre: AddLog, post: AddLog, args: AddLogArgs, ts: i64, r: Result<
    (),
    LogError,
>)
    requires
        r == add_log_result(pre, args),
        r is Err ==> post == pre,
        r is Ok ==> add_log_ok_post(pre, post, args, ts),
    ensures
        r is Ok ==> post.chain.ledger.count == pre.chain.ledger.count + 1,
        r is Err ==> post.chain.ledger.count == pre.chain.ledger.count,
{
}

/// Mutual exclusion on a sequence slot: once an append has won a slot, a
/// second well-formed attempt at the same slot on the same ledger is owed
/// exactly an address collision — two appends can never both claim one
/// sequence number.
pub proof fn lemma_slot_claimed_once(
    pre: AddLog,
    post: AddLog,
    args1: AddLogArgs,
    ts1: i64,
    args2: AddLogArgs,
)
    requires
        add_log_result(pre, args1) is Ok,
        add_log_ok_post(pre, post, args1, ts1),
        fields_fit(args2),
    ensures
        add_log_result(post, args2) == Err::<(), LogError>(LogError::AddressCollision),
{
}

} // verus!
