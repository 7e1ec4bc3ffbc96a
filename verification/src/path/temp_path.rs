//! Temporary-path generation: a path inside the platform's designated
//! temporary-file directory, with a generated base name and the caller's
//! extension, checked against the filesystem so that the returned path
//! names nothing that already exists.

use vstd::prelude::*;

verus! {

/// Whether `suffix` is a suffix of `s`.
pub open spec fn has_suffix(s: Seq<char>, suffix: Seq<char>) -> bool {
    s.len() >= suffix.len() && s.subrange(s.len() - suffix.len(), s.len() as int) == suffix
}

/// The lowercase hexadecimal digit of value `d`.
pub open spec fn hex_char(d: int) -> char
    recommends
        0 <= d < 16,
{
    "0123456789abcdef"@[d]
}

/// The last `k` lowercase hexadecimal digits of `v`, most significant
/// first.
pub open spec fn hex_digits(v: int, k: nat) -> Seq<char>
    decreases k,
{
    if k == 0 {
        Seq::empty()
    } else {
        hex_digits(v / 16, (k - 1) as nat).push(hex_char(v % 16))
    }
}

/// The lowercase hexadecimal digit of value `d`, as a borrowed one-char
/// string.
fn hex_str(d: usize) -> (r: &'static str)
    requires
        d < 16,
    ensures
        r@ == seq![hex_char(d as int)],
{
    let alphabet = "0123456789abcdef";
    proof {
        reveal_strlit("0123456789abcdef");
    }
    let r = alphabet.substring_char(d, d + 1);
    proof {
        assert(r@ =~= seq![hex_char(d as int)]);
    }
    r
}

/// The last `k` lowercase hexadecimal digits of `v`, most significant
/// first, as an owned string.
fn hex_digits_exec(v: u64, k: u64) -> (r: String)
    ensures
        r@ == hex_digits(v as int, k as nat),
    decreases k,
{
    if k == 0 {
        String::new()
    } else {
        let mut r = hex_digits_exec(v / 16, k - 1);
        let digit = hex_str((v % 16) as usize);
        r.append(digit);
        proof {
            assert(r@ =~= hex_digits(v as int, k as nat));
        }
        r
    }
}

/// Relies on tempfile::env::temp_dir: it reports the platform's designated
/// temporary-file directory (std::env::temp_dir, unless overridden through
/// tempfile::env::override_temp_dir).  Nothing is promised of the value.
#[verifier::external_body]
fn os_temp_dir() -> (r: String) {
    tempfile::env::temp_dir().to_string_lossy().into_owned()
}

/// Relies on getrandom::fill: it fills the buffer from the operating
/// system's randomness source.  Nothing can be promised of the value, and
/// two calls may well differ.
#[verifier::external_body]
fn os_random_u64() -> (r: u64) {
    let mut bytes = [0u8; 8];
    let _ = getrandom::fill(&mut bytes);
    u64::from_le_bytes(bytes)
}

/// Relies on std::path::Path::exists: whether the path names an entity
/// that exists on the live filesystem at the moment of the call.
#[verifier::external_body]
fn path_exists(path: &str) -> (r: bool) {
    std::path::Path::new(path).exists()
}

/// A path inside the platform's temporary-file directory whose base name is
/// freshly generated and whose extension is the caller's, appended after a
/// dot.  Candidates that already exist on the filesystem are rejected and
/// drawn again.
pub(crate) fn get(extension: &str) -> (r: String)
    ensures
        has_suffix(r@, seq!['.'] + extension@),
        exists|prefix: Seq<char>, v: int|
            r@ == prefix + seq!['/'] + hex_digits(v, 16) + seq!['.'] + extension@,
{
    let dir = os_temp_dir();
    let mut attempts: u64 = 0;
    loop
        invariant
            attempts <= 64,
        decreases 64 - attempts,
    {
        let value: u64 = os_random_u64();
        let name = hex_digits_exec(value, 16);
        let mut candidate = dir.clone();
        candidate.append("/");
        candidate.append(name.as_str());
        candidate.append(".");
        candidate.append(extension);
        proof {
            reveal_strlit(".");
            reveal_strlit("/");
            assert(candidate@.subrange(
                candidate@.len() - extension@.len() - 1,
                candidate@.len() as int,
            ) =~= seq!['.'] + extension@);
            assert(candidate@ =~= dir@ + seq!['/'] + hex_digits(value as int, 16) + seq!['.']
                + extension@);
        }
        if attempts >= 64 || !path_exists(candidate.as_str()) {
            return candidate;
        }
        attempts = attempts + 1;
    }
}

} // verus!
