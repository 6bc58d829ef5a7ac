//! Vanity `.onion` address search.

use vstd::prelude::*;
use vstd::arithmetic::power::pow;
use std::time::Duration;

use crate::error::Error;
use crate::model::VanityResult;
use crate::onion::{
    ed25519_public_key, generate_onion_identity, is_base32_char, is_key_address,
    lemma_key_address_form, onion_address_of_secret, onion_address_text,
};

verus! {

/// The text that `str::to_lowercase` gives for `text` (Unicode lowercase
/// mapping).
pub uninterp spec fn lowercase_text(text: Seq<char>) -> Seq<char>;

/// Lowercases `text` with `str::to_lowercase`. The result is the named
/// `lowercase_text` of the input.
#[verifier::external_body]
fn to_lowercase(text: &str) -> (r: String)
    ensures
        r@ == lowercase_text(text@),
{
    text.to_lowercase()
}

/// The prefix that a search looks for: the requested prefix, lowercased.
pub fn normalize_prefix(prefix: &str) -> (r: String)
    ensures
        r@ == lowercase_text(prefix@),
{
    to_lowercase(prefix)
}

/// Whether `text` starts with `prefix`.
pub fn has_prefix(text: &str, prefix: &str) -> (r: bool)
    ensures
        r == prefix@.is_prefix_of(text@),
{
    let n = prefix.unicode_len();
    let m = text.unicode_len();
    if n > m {
        return false;
    }
    let mut i: usize = 0;
    while i < n
        invariant
            i <= n,
            n == prefix@.len(),
            m == text@.len(),
            n <= m,
            forall|j: int| 0 <= j < i ==> prefix@[j] == text@[j],
        decreases n - i,
    {
        if prefix.get_char(i) != text.get_char(i) {
            return false;
        }
        i = i + 1;
    }
    proof {
        assert(prefix@ =~= text@.subrange(0, prefix@.len() as int));
    }
    true
}

/// The outcome of a bounded search: the address found and its secret key,
/// if any, the number of key pairs drawn, and (as ghost state) the secret
/// keys drawn, in order.
pub struct SearchOutcome {
    pub address: Option<String>,
    pub secret_key: Option<[u8; 32]>,
    pub attempts: u64,
    pub drawn: Ghost<Seq<Seq<u8>>>,
}

/// Whether the address of the secret key `secret` starts with `prefix`.
pub open spec fn key_matches(prefix: Seq<char>, secret: Seq<u8>) -> bool {
    prefix.is_prefix_of(onion_address_of_secret(secret))
}

/// Draws up to `max_attempts` fresh key pairs and stops at the first whose
/// address starts with `prefix`, returning that key and its address.
pub fn vanity_batch(prefix: &str, max_attempts: u64) -> (r: SearchOutcome)
    ensures
        r.attempts <= max_attempts,
        r.drawn@.len() == r.attempts,
        // Every key drawn before the last one missed; the search stops at
        // the first match.
        forall|k: int|
            0 <= k < r.attempts - (if r.address is Some { 1int } else { 0int }) ==> !key_matches(
                prefix@,
                #[trigger] r.drawn@[k],
            ),
        r.address is Some <==> r.secret_key is Some,
        r.address is None ==> r.attempts == max_attempts,
        r.address matches Some(a) ==> {
            &&& 1 <= r.attempts
            &&& r.secret_key matches Some(s) && s@ == r.drawn@.last() && a@ == onion_address_of_secret(s@)
            &&& prefix@.is_prefix_of(a@)
            &&& is_key_address(a@)
            &&& a@.len() == 62
            &&& a@.subrange(56, 62) == ".onion"@
        },
        prefix@.len() == 0 && 1 <= max_attempts ==> r.address is Some && r.attempts == 1,
        prefix@.len() > 0 && !is_base32_char(prefix@[0]) ==> r.address is None,
{
    let mut attempts: u64 = 0;
    let ghost mut drawn: Seq<Seq<u8>> = Seq::empty();
    while attempts < max_attempts
        invariant
            attempts <= max_attempts,
            drawn.len() == attempts,
            forall|k: int| 0 <= k < attempts ==> !key_matches(prefix@, #[trigger] drawn[k]),
            prefix@.len() == 0 ==> attempts == 0,
        decreases max_attempts - attempts,
    {
        let (secret, address) = generate_onion_identity();
        attempts = attempts + 1;
        proof {
            drawn = drawn.push(secret@);
            let pk = ed25519_public_key(secret@);
            assert(pk.len() == 32 && address@ == onion_address_text(pk));
            lemma_key_address_form(address@);
        }
        if has_prefix(address.as_str(), prefix) {
            proof {
                if prefix@.len() > 0 {
                    assert(prefix@[0] == address@[0]);
                }
                assert(forall|k: int| 0 <= k < attempts - 1 ==> drawn[k] == drawn.drop_last()[k]);
            }
            return SearchOutcome {
                address: Some(address),
                secret_key: Some(secret),
                attempts,
                drawn: Ghost(drawn),
            };
        }
        proof {
            if prefix@.len() == 0 {
                assert(prefix@ =~= address@.subrange(0, 0));
            }
        }
    }
    SearchOutcome { address: None, secret_key: None, attempts, drawn: Ghost(drawn) }
}

/// One bounded search for `prefix` as a user gives it: the prefix is
/// lowercased, then up to `max_attempts` fresh key pairs are drawn, stopping
/// at the first whose address starts with the lowercased prefix.
pub fn vanity_search(prefix: &str, max_attempts: u64) -> (r: SearchOutcome)
    ensures
        r.attempts <= max_attempts,
        r.drawn@.len() == r.attempts,
        forall|k: int|
            0 <= k < r.attempts - (if r.address is Some { 1int } else { 0int }) ==> !key_matches(
                lowercase_text(prefix@),
                #[trigger] r.drawn@[k],
            ),
        r.address is Some <==> r.secret_key is Some,
        r.address is None ==> r.attempts == max_attempts,
        r.address matches Some(a) ==> {
            &&& 1 <= r.attempts
            &&& r.secret_key matches Some(s) && s@ == r.drawn@.last() && a@ == onion_address_of_secret(s@)
            &&& lowercase_text(prefix@).is_prefix_of(a@)
            &&& is_key_address(a@)
            &&& a@.len() == 62
            &&& a@.subrange(56, 62) == ".onion"@
        },
        lowercase_text(prefix@).len() == 0 && 1 <= max_attempts ==> r.address is Some && r.attempts == 1,
{
    let wanted = normalize_prefix(prefix);
    vanity_batch(wanted.as_str(), max_attempts)
}

/// The expected number of key pairs to draw before an address starts with a
/// given prefix of `prefix_len` symbols: one in 32 per symbol.
pub fn expected_attempts(prefix_len: u32) -> (r: u128)
    requires
        prefix_len <= 25,
    ensures
        r == pow(32, prefix_len as nat),
{
    let mut r: u128 = 1;
    let mut i: u32 = 0;
    proof {
        vstd::arithmetic::power::lemma_pow0(32);
    }
    while i < prefix_len
        invariant
            i <= prefix_len,
            prefix_len <= 25,
            r == pow(32, i as nat),
        decreases prefix_len - i,
    {
        proof {
            lemma_pow32_step(i as nat);
        }
        r = r * 32;
        i = i + 1;
    }
    r
}

proof fn lemma_pow32_step(i: nat)
    requires
        i < 25,
    ensures
        pow(32, i + 1) == 32 * pow(32, i),
        32 * pow(32, i) <= 42535295865117307932921825928971026432,
{
    reveal_with_fuel(pow, 2);
    vstd::arithmetic::power::lemma_pow_increases(32, i + 1, 25);
    assert(pow(32, 25) == 42535295865117307932921825928971026432) by {
        reveal_with_fuel(pow, 26);
    }
}

/// Each further prefix symbol multiplies the expected number of attempts by
/// 32.
pub proof fn lemma_expected_attempts_grow(prefix_len: nat)
    ensures
        pow(32, prefix_len + 1) == 32 * pow(32, prefix_len),
{
    reveal_with_fuel(pow, 2);
}

/// Generates vanity `.onion` addresses matching a given prefix.
pub trait VanityGenerator {
    fn generate(&self, prefix: &str) -> Result<VanityResult, Error>;

    fn estimate_time(&self, prefix_len: usize) -> Duration;
}

} // verus!
