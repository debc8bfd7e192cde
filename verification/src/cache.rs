//! Naming and freshness of cache entries. Reading and writing the cache
//! directory is left to the caller.
use vstd::prelude::*;
use vstd::string::{StringExecFns, StringSliceAdditionalSpecFns, StrSliceExecFns};
use sha2::Digest;

verus! {

/// The SHA-256 digest of a byte string.
pub uninterp spec fn sha256(data: Seq<u8>) -> Seq<u8>;

/// Calls sha2's `Sha256::digest`. The contract names the digest `sha256` of
/// the bytes and states that it is 32 bytes long, the output size of SHA-256;
/// the hash function itself is not stated.
#[verifier::external_body]
fn sha256_digest(data: &[u8]) -> (r: Vec<u8>)
    ensures
        r@ == sha256(data@),
        r@.len() == 32,
{
    sha2::Sha256::digest(data).to_vec()
}

/// The lowercase hexadecimal digit for `d` below sixteen.
pub open spec fn hex_digit(d: int) -> char {
    "0123456789abcdef"@[d]
}

/// Bytes in lowercase hexadecimal, two digits per byte, high half first,
/// as `format!("{:x}", digest)` renders a digest.
pub open spec fn lower_hex(data: Seq<u8>) -> Seq<char>
    decreases data.len(),
{
    if data.len() == 0 {
        Seq::empty()
    } else {
        lower_hex(data.drop_last()) + seq![hex_digit((data.last() / 16) as int), hex_digit((data.last() % 16) as int)]
    }
}

/// Renders bytes in lowercase hexadecimal.
pub fn to_lower_hex(data: &[u8]) -> (r: String)
    ensures
        r@ == lower_hex(data@),
{
    proof {
        reveal_strlit("0123456789abcdef");
    }
    let digits = "0123456789abcdef";
    let mut out = String::new();
    let mut i: usize = 0;
    while i < data.len()
        invariant
            i <= data@.len(),
            digits@ == "0123456789abcdef"@,
            digits@.len() == 16,
            out@ == lower_hex(data@.take(i as int)),
        decreases data@.len() - i,
    {
        let b = data[i];
        let hi = (b / 16) as usize;
        let lo = (b % 16) as usize;
        out.append(digits.substring_char(hi, hi + 1));
        out.append(digits.substring_char(lo, lo + 1));
        assert(data@.take(i + 1).drop_last() =~= data@.take(i as int));
        assert(out@ =~= lower_hex(data@.take(i + 1)));
        i = i + 1;
    }
    assert(data@.take(i as int) =~= data@);
    out
}

/// The name of the file that holds the cache entry for `key`: the SHA-256
/// digest of the key's UTF-8 bytes in lowercase hexadecimal, then ".json".
pub fn cache_file_name(key: &str) -> (r: String)
    ensures
        r@ == lower_hex(sha256(key.spec_bytes())) + ".json"@,
{
    let digest = sha256_digest(key.as_bytes());
    let mut name = to_lower_hex(digest.as_slice());
    name.append(".json");
    name
}

/// Whether a cache entry of the given age is still fresh: its age is known
/// (the clock did not run backwards past it) and below the time to live.
pub fn is_fresh(age_nanos: Option<u128>, ttl_nanos: u128) -> (r: bool)
    ensures
        r == (age_nanos matches Some(a) && a < ttl_nanos),
{
    match age_nanos {
        Some(a) => a < ttl_nanos,
        None => false,
    }
}

/// What a cache lookup decides.
#[derive(Debug, Clone, Copy, PartialEq, Eq)]
pub enum CacheDecision {
    /// Return the stored value.
    UseStored,
    /// Run the operation and store its value.
    Recompute,
}

/// Decides a lookup: a stored value that is fresh and could be read is
/// used; a missing, stale or unreadable entry is recomputed.
pub fn decide(stored_readable: bool, age_nanos: Option<u128>, ttl_nanos: u128) -> (r: CacheDecision)
    ensures
        r == (if stored_readable && (age_nanos matches Some(a) && a < ttl_nanos) {
            CacheDecision::UseStored
        } else {
            CacheDecision::Recompute
        }),
{
    if stored_readable && is_fresh(age_nanos, ttl_nanos) {
        CacheDecision::UseStored
    } else {
        CacheDecision::Recompute
    }
}

} // verus!
