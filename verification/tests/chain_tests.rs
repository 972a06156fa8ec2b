use rayguard::chain::{AddLog, AddLogArgs, CreateLedger, LedgerChain};
use rayguard::errors::LogError;
use rayguard::state::Ledger;
use rayguard::{add_log, create_ledger};

fn platform_sha256(data: &[u8]) -> [u8; 32] {
    anchor_lang::solana_program::hash::hash(data).to_bytes()
}

fn args(ip: &str, threat: &str, action: &str) -> AddLogArgs {
    AddLogArgs {
        ip_address: ip.as_bytes().to_vec(),
        threat_type: threat.as_bytes().to_vec(),
        action_taken: action.as_bytes().to_vec(),
    }
}

fn fresh_chain(authority: [u8; 32], seed: u16) -> LedgerChain {
    let ctx = CreateLedger { authority, ledger_bump: 254 };
    create_ledger(&ctx, seed)
}

#[test]
fn genesis_state() {
    let authority = [7u8; 32];
    let ctx = CreateLedger { authority, ledger_bump: 251 };
    let chain = create_ledger(&ctx, 7);
    assert_eq!(chain.ledger.authority, authority);
    assert_eq!(chain.ledger.last_hash, [0u8; 32]);
    assert_eq!(chain.ledger.count, 0);
    assert_eq!(chain.ledger.bump, 251);
    assert_eq!(chain.logs.len(), 0);
}

#[test]
fn scenario_two_appends() {
    let authority = [7u8; 32];
    let chain = fresh_chain(authority, 7);
    assert_eq!(chain.ledger.last_hash, [0u8; 32]);
    assert_eq!(chain.ledger.count, 0);

    let mut ctx = AddLog { chain, authority, log_slot: 0, log_bump: 250 };
    let r = add_log(&mut ctx, args("1.2.3.4", "portscan", "blocked"), 1000);
    assert_eq!(r, Ok(()));
    let expected0 = platform_sha256(b"1.2.3.4portscanblocked1000");
    assert_eq!(ctx.chain.logs.len(), 1);
    assert_eq!(ctx.chain.logs[0].previous_hash, [0u8; 32]);
    assert_eq!(ctx.chain.logs[0].current_hash, expected0);
    assert_eq!(ctx.chain.logs[0].timestamp, 1000);
    assert_eq!(ctx.chain.logs[0].ip_address, b"1.2.3.4".to_vec());
    assert_eq!(ctx.chain.logs[0].bump, 250);
    assert_eq!(ctx.chain.ledger.last_hash, expected0);
    assert_eq!(ctx.chain.ledger.count, 1);

    ctx.log_slot = 1;
    let r = add_log(&mut ctx, args("5.6.7.8", "bruteforce", "alerted"), 1001);
    assert_eq!(r, Ok(()));
    let expected1 = platform_sha256(b"5.6.7.8bruteforcealerted1001");
    assert_eq!(ctx.chain.logs.len(), 2);
    assert_eq!(ctx.chain.logs[1].previous_hash, expected0);
    assert_eq!(ctx.chain.logs[1].current_hash, expected1);
    assert_eq!(ctx.chain.ledger.last_hash, expected1);
    assert_eq!(ctx.chain.ledger.count, 2);
}

#[test]
fn platform_digest_is_sha256() {
    // A fixed SHA-256 test vector, so the digest the chain commits to is
    // pinned bit for bit and not merely self-consistent.
    let expected: [u8; 32] = [
        0xba, 0x78, 0x16, 0xbf, 0x8f, 0x01, 0xcf, 0xea, 0x41, 0x41, 0x40, 0xde, 0x5d, 0xae,
        0x22, 0x23, 0xb0, 0x03, 0x61, 0xa3, 0x96, 0x17, 0x7a, 0x9c, 0xb4, 0x10, 0xff, 0x61,
        0xf2, 0x00, 0x15, 0xad,
    ];
    assert_eq!(platform_sha256(b"abc"), expected);
}

#[test]
fn collision_on_claimed_slot() {
    let authority = [3u8; 32];
    let chain = fresh_chain(authority, 1);
    let mut ctx = AddLog { chain, authority, log_slot: 0, log_bump: 255 };
    assert_eq!(add_log(&mut ctx, args("1.1.1.1", "scan", "logged"), 10), Ok(()));
    ctx.log_slot = 1;
    assert_eq!(add_log(&mut ctx, args("2.2.2.2", "scan", "logged"), 11), Ok(()));
    assert_eq!(ctx.chain.ledger.count, 2);

    // Two racers both derived the slot for sequence number 2; the winner
    // appends, the loser finds the slot claimed and must re-derive.
    ctx.log_slot = 2;
    let winner = add_log(&mut ctx, args("9.9.9.9", "bruteforce", "banned"), 12);
    assert_eq!(winner, Ok(()));
    let tip_after_winner = ctx.chain.ledger.last_hash;

    let loser = add_log(&mut ctx, args("8.8.8.8", "bruteforce", "banned"), 12);
    assert_eq!(loser, Err(LogError::AddressCollision));
    assert_eq!(ctx.chain.ledger.count, 3);
    assert_eq!(ctx.chain.logs.len(), 3);
    assert_eq!(ctx.chain.ledger.last_hash, tip_after_winner);
    assert_eq!(ctx.chain.logs[2].ip_address, b"9.9.9.9".to_vec());
}

#[test]
fn authorization_mismatch_changes_nothing() {
    let authority = [5u8; 32];
    let chain = fresh_chain(authority, 2);
    let mut ctx = AddLog { chain, authority, log_slot: 0, log_bump: 255 };
    assert_eq!(add_log(&mut ctx, args("1.2.3.4", "portscan", "blocked"), 50), Ok(()));
    let tip = ctx.chain.ledger.last_hash;

    let mut stranger = [5u8; 32];
    stranger[31] = 6;
    ctx.authority = stranger;
    ctx.log_slot = 1;
    let r = add_log(&mut ctx, args("4.3.2.1", "probe", "dropped"), 51);
    assert_eq!(r, Err(LogError::AuthorizationMismatch));
    assert_eq!(ctx.chain.ledger.count, 1);
    assert_eq!(ctx.chain.logs.len(), 1);
    assert_eq!(ctx.chain.ledger.last_hash, tip);
}

#[test]
fn field_too_long_is_rejected() {
    let authority = [9u8; 32];
    let chain = fresh_chain(authority, 3);
    let mut ctx = AddLog { chain, authority, log_slot: 0, log_bump: 255 };
    let long = String::from_utf8(vec![b'a'; 101]).unwrap();
    let r = add_log(&mut ctx, args("1.2.3.4", &long, "blocked"), 60);
    assert_eq!(r, Err(LogError::FieldTooLong));
    assert_eq!(ctx.chain.ledger.count, 0);
    assert_eq!(ctx.chain.logs.len(), 0);

    // A field of exactly the cap still fits.
    let cap = String::from_utf8(vec![b'a'; 100]).unwrap();
    let r = add_log(&mut ctx, args(&cap, &cap, &cap), 60);
    assert_eq!(r, Ok(()));
}

#[test]
fn counter_overflow_is_refused() {
    // A ledger whose counter sits at the maximum; the append must refuse to
    // wrap it rather than advance.
    let authority = [2u8; 32];
    let ledger = Ledger { authority, last_hash: [0u8; 32], count: u64::MAX, bump: 1 };
    let chain = LedgerChain { ledger, logs: Vec::new() };
    let mut ctx = AddLog { chain, authority, log_slot: u64::MAX, log_bump: 1 };
    let r = add_log(&mut ctx, args("1.2.3.4", "portscan", "blocked"), 70);
    assert_eq!(r, Err(LogError::CounterOverflow));
    assert_eq!(ctx.chain.ledger.count, u64::MAX);
    assert_eq!(ctx.chain.logs.len(), 0);
}

#[test]
fn decimal_rendering_matches_formatting() {
    for n in [0i64, 7, 1000, -5, 1001, i64::MAX, i64::MIN] {
        assert_eq!(rayguard::hashing::i64_decimal(n), format!("{}", n).into_bytes());
    }
    for n in [0u64, 9, 10, 12345, u64::MAX] {
        assert_eq!(rayguard::hashing::u64_decimal(n), format!("{}", n).into_bytes());
    }
}

#[test]
fn content_is_fields_then_timestamp() {
    let built = rayguard::hashing::build_content(
        &b"1.2.3.4".to_vec(),
        &b"portscan".to_vec(),
        &b"blocked".to_vec(),
        1000,
    );
    assert_eq!(built, b"1.2.3.4portscanblocked1000".to_vec());
    let built = rayguard::hashing::build_content(
        &b"x".to_vec(),
        &b"".to_vec(),
        &b"y".to_vec(),
        -42,
    );
    assert_eq!(built, b"xy-42".to_vec());
}
