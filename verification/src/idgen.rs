//! Session identifier generation.
//!
//! Identifiers are bearer tokens, so every strategy draws on a process-wide
//! entropy source; the outside calls stand behind trusted wrappers and the
//! contracts state only what holds of every outcome.

use vstd::prelude::*;
use vstd::string::StringExecFns;

verus! {

/// The hex-encoded SHA-256 digest of a string, a function of its characters
/// alone.
pub uninterp spec fn sha256_hex_of(s: Seq<char>) -> Seq<char>;

/// Relies on sha256::digest: the hex form of the 32-byte SHA-256 digest of
/// the input, 64 hex characters, depending on the input alone.
#[verifier::external_body]
fn sha256_hex(s: &str) -> (r: String)
    ensures
        r@ == sha256_hex_of(s@),
        r@.len() == 64,
{
    sha256::digest(s)
}

/// Relies on uuid's Uuid::new_v4 and its Display impl: the hyphenated
/// rendering of a version-4 UUID is 36 characters.
#[verifier::external_body]
fn uuid_v4_string() -> (r: String)
    ensures
        r@.len() == 36,
{
    uuid::Uuid::new_v4().to_string()
}

/// Relies on uuid's Uuid::now_v7 and its Display impl: the hyphenated
/// rendering of a version-7 UUID is 36 characters.
#[verifier::external_body]
fn uuid_v7_string() -> (r: String)
    ensures
        r@.len() == 36,
{
    uuid::Uuid::now_v7().to_string()
}

/// Relies on rand's Rng::random_range over `0..10` (a nonempty range, so
/// no panic) and on u64's decimal Display: one uniformly drawn decimal
/// digit. Which digit is not claimed of a random value.
#[verifier::external_body]
fn random_digit() -> (r: String)
    ensures
        r@.len() == 1,
        '0' <= r@[0] <= '9',
{
    let mut rng = rand::rng();
    let n: u64 = rand::Rng::random_range(&mut rng, 0..10);
    n.to_string()
}

/// A uniformly drawn string of exactly `len` decimal digits, the session
/// token for the numeric strategies: about 3.3 bits of entropy per digit.
fn random_digits(len: usize) -> (r: String)
    ensures
        r@.len() == len,
        forall|i: int| 0 <= i < r@.len() ==> '0' <= #[trigger] r@[i] <= '9',
{
    let mut digits = String::new();
    let mut drawn: usize = 0;
    while drawn < len
        invariant
            digits@.len() == drawn,
            drawn <= len,
            forall|i: int| 0 <= i < digits@.len() ==> '0' <= #[trigger] digits@[i] <= '9',
        decreases len - drawn,
    {
        let d = random_digit();
        digits.append(d.as_str());
        drawn = drawn + 1;
    }
    digits
}

/// Strategy for generating session identifiers.
#[derive(Debug, Clone, Copy)]
pub enum RandKey {
    /// A random decimal string of exactly this many digits.
    Random(usize),
    /// A version-4 (purely random) UUID.
    UuidV4,
    /// A version-7 (time-ordered) UUID.
    UuidV7,
    /// A random decimal string of this many digits, passed through SHA-256
    /// and rendered as hex.
    RandomSha256(usize),
}

impl Default for RandKey {
    /// The historical default: hashed random input.
    fn default() -> (r: RandKey)
        ensures
            r == RandKey::RandomSha256(32),
    {
        RandKey::RandomSha256(32)
    }
}

impl RandKey {
    /// The entropy parameter asks for at least one digit of randomness.
    pub open spec fn entropy_len_ok(&self) -> bool {
        match *self {
            RandKey::Random(len) => 1 <= len,
            RandKey::RandomSha256(len) => 1 <= len,
            _ => true,
        }
    }

    /// The configuration-time bound on the entropy parameter: under 64 or
    /// over 1024 is rejected when the strategy is configured.
    pub open spec fn entropy_len_valid(&self) -> bool {
        match *self {
            RandKey::Random(len) => 64 <= len <= 1024,
            RandKey::RandomSha256(len) => 64 <= len <= 1024,
            _ => true,
        }
    }

    /// Generates a new session identifier under this strategy.
    ///
    /// Always succeeds and never returns an empty token. `Random(len)`
    /// yields exactly `len` decimal digits — one uniform draw per digit,
    /// so the token carries about `3.3 * len` bits of entropy and is
    /// unguessable at the configured lengths; `RandomSha256(len)` hashes
    /// such a string into 64 hex characters; the UUID strategies yield the
    /// 36-character hyphenated form.
    pub fn generate(&self) -> (r: String)
        requires
            self.entropy_len_ok(),
        ensures
            r@.len() >= 1,
            *self matches RandKey::Random(len) ==> r@.len() == len,
            (*self is UuidV4 || *self is UuidV7) ==> r@.len() == 36,
            *self is RandomSha256 ==> r@.len() == 64,
    {
        match self {
            RandKey::Random(len) => random_digits(*len),
            RandKey::UuidV4 => uuid_v4_string(),
            RandKey::UuidV7 => uuid_v7_string(),
            RandKey::RandomSha256(len) => {
                let seed = random_digits(*len);
                sha256_hex(seed.as_str())
            },
        }
    }
}

} // verus!
