//! The digest and the canonical content encoding that the chain commits to.
//!
//! A record's digest is taken over the ordered concatenation of its three
//! text fields followed by the decimal rendering of its timestamp. The
//! digest itself is SHA-256, supplied by the host platform's hashing
//! routine; everything around the call is verified here.

use vstd::prelude::*;

verus! {

/// The SHA-256 digest of a byte sequence. The digest is a fixed function of
/// the input bytes alone; its value is given by the external routine below.
pub uninterp spec fn sha256_of(data: Seq<u8>) -> Seq<u8>;

/// Relies on `anchor_lang::solana_program::hash::hash` (SHA-256): the
/// 32-byte digest depends on the input bytes alone.
#[verifier::external_body]
pub(crate) fn sha256_digest(data: &[u8]) -> (r: [u8; 32])
    ensures
        r@ == sha256_of(data@),
{
    anchor_lang::solana_program::hash::hash(data).to_bytes()
}

/// The decimal digits of a natural number, most significant first, as ASCII
/// bytes (`48` is `'0'`).
pub open spec fn decimal_digits(n: nat) -> Seq<u8>
    decreases n,
{
    if n < 10 {
        seq![(48 + n) as u8]
    } else {
        decimal_digits(n / 10).push((48 + n % 10) as u8)
    }
}

/// The decimal rendering of an integer as ASCII bytes: the digits of its
/// magnitude, preceded by `'-'` (`45`) when it is negative.
pub open spec fn decimal_of(n: int) -> Seq<u8> {
    if n < 0 {
        seq![45u8] + decimal_digits((-n) as nat)
    } else {
        decimal_digits(n as nat)
    }
}

/// The canonical content a record commits to: the three text fields in
/// order, then the decimal rendering of the timestamp.
pub open spec fn content_bytes(ip: Seq<u8>, threat: Seq<u8>, action: Seq<u8>, ts: int) -> Seq<u8> {
    ip + threat + action + decimal_of(ts)
}

/// The digest a record with the given content must carry.
pub open spec fn log_hash(ip: Seq<u8>, threat: Seq<u8>, action: Seq<u8>, ts: int) -> Seq<u8> {
    sha256_of(content_bytes(ip, threat, action, ts))
}

/// Renders an unsigned integer in decimal.
pub fn u64_decimal(n: u64) -> (r: Vec<u8>)
    ensures
        r@ == decimal_digits(n as nat),
{
    let mut digits: Vec<u8> = Vec::new();
    let mut m: u64 = n;
    if m == 0 {
        digits.push(48);
        assert(digits@ =~= decimal_digits(0));
        return digits;
    }
    assert(decimal_digits(n as nat) + digits@ =~= decimal_digits(n as nat));
    loop
        invariant_except_break
            m > 0,
            decimal_digits(n as nat) == decimal_digits(m as nat) + digits@,
        ensures
            digits@ == decimal_digits(n as nat),
        decreases m,
    {
        let d: u8 = 48 + (m % 10) as u8;
        let ghost pre = digits@;
        digits.insert(0, d);
        proof {
            assert(digits@ =~= seq![d] + pre);
            if m >= 10 {
                assert(decimal_digits(m as nat) == decimal_digits(m as nat / 10).push(d));
                assert(decimal_digits(m as nat / 10).push(d) + pre =~= decimal_digits(
                    m as nat / 10,
                ) + (seq![d] + pre));
            } else {
                assert(decimal_digits(m as nat) =~= seq![d]);
            }
        }
        m = m / 10;
        if m == 0 {
            break;
        }
    }
    digits
}

/// Renders a signed integer in decimal, exactly as the platform's default
/// integer formatting does: digits of the magnitude, a leading `'-'` when
/// negative, no padding.
pub fn i64_decimal(n: i64) -> (r: Vec<u8>)
    ensures
        r@ == decimal_of(n as int),
{
    if n >= 0 {
        u64_decimal(n as u64)
    } else {
        let mag: u64 = if n == i64::MIN {
            9223372036854775808u64
        } else {
            (-n) as u64
        };
        assert(mag as nat == (-(n as int)) as nat);
        let mut digits = u64_decimal(mag);
        let mut r: Vec<u8> = Vec::new();
        r.push(45);
        r.append(&mut digits);
        assert(r@ =~= seq![45u8] + decimal_digits((-(n as int)) as nat));
        r
    }
}

/// Appends every byte of `src` to `dst`, in order.
pub fn push_all(dst: &mut Vec<u8>, src: &Vec<u8>)
    ensures
        final(dst)@ == old(dst)@ + src@,
{
    let mut i: usize = 0;
    while i < src.len()
        invariant
            i <= src.len(),
            dst@ == old(dst)@ + src@.subrange(0, i as int),
        decreases src.len() - i,
    {
        dst.push(src[i]);
        proof {
            assert(dst@ =~= old(dst)@ + src@.subrange(0, i + 1));
        }
        i += 1;
    }
    proof {
        assert(src@.subrange(0, src@.len() as int) =~= src@);
    }
}

/// Builds the canonical content bytes for one record: the three text fields
/// in order, then the decimal rendering of the timestamp.
pub fn build_content(ip: &Vec<u8>, threat: &Vec<u8>, action: &Vec<u8>, ts: i64) -> (r: Vec<u8>)
    ensures
        r@ == content_bytes(ip@, threat@, action@, ts as int),
{
    let mut r: Vec<u8> = Vec::new();
    push_all(&mut r, ip);
    push_all(&mut r, threat);
    push_all(&mut r, action);
    let mut ts_digits = i64_decimal(ts);
    r.append(&mut ts_digits);
    proof {
        assert(r@ =~= content_bytes(ip@, threat@, action@, ts as int));
    }
    r
}

} // verus!
