//! The credential hasher: memory-hard password digests with a fresh salt,
//! their verification, and the password strength policy.

use crate::config::{parse_u32, parsed_u32};
use crate::encoding::same_text;
use crate::error::AuthError;
use crate::models::text_view;
use crate::service::AuthService;
use argon2::password_hash::PasswordHasher;
use argon2::password_hash::PasswordVerifier;
use vstd::prelude::*;

verus! {

/// The self-describing Argon2id digest of a password under a salt and cost
/// parameters, or nothing where the parameters or the salt are refused.
pub uninterp spec fn argon2_digest(
    password: Seq<char>,
    salt: Seq<char>,
    memory: u32,
    passes: u32,
    lanes: u32,
) -> Option<Seq<char>>;

/// Whether a password reproduces the output that a digest records, under the
/// algorithm, parameters and salt that the digest itself names. False of
/// text that is no digest.
pub uninterp spec fn argon2_accepts(password: Seq<char>, digest: Seq<char>) -> bool;

/// The parameters that a digest text names, each as its name and the text
/// of its value, in the order in which the text holds them; nothing for
/// text that is no digest.
pub uninterp spec fn digest_params_of(digest: Seq<char>) -> Option<Seq<DigestParamView>>;

/// Whether a character has the Unicode property Uppercase.
pub uninterp spec fn char_is_uppercase(c: char) -> bool;

/// Whether a character has the Unicode property Lowercase.
pub uninterp spec fn char_is_lowercase(c: char) -> bool;

/// The largest degree of parallelism that Argon2 admits.
pub const MAX_LANES: u32 = 0xFF_FFFF;

/// Calls `SaltString::generate` of `password_hash` on the operating system's
/// random source and returns the salt as text. Nothing is claimed of it.
#[verifier::external_body]
pub(crate) fn fresh_salt() -> (salt: String) {
    argon2::password_hash::SaltString::generate(&mut argon2::password_hash::rand_core::OsRng)
        .as_str().to_owned()
}

/// Calls `Argon2::hash_password` for Argon2id, version 0x13, with the given
/// costs and salt. The contract names the digest, and claims what the crate
/// documents of its own digests: verification of the same password against
/// one succeeds, since it recomputes with the parameters and salt that the
/// digest records. The computation allocates `memory` KiB; the bound on
/// `lanes` keeps the crate's check of the parameters within its arithmetic.
#[verifier::external_body]
pub(crate) fn argon2_hash(password: &str, salt: &str, memory: u32, passes: u32, lanes: u32) -> (digest:
    Option<String>)
    requires
        lanes <= MAX_LANES,
    ensures
        text_view(digest) == argon2_digest(password@, salt@, memory, passes, lanes),
        digest matches Some(d) ==> argon2_accepts(password@, d@),
{
    let params = argon2::Params::new(memory, passes, lanes, None).ok()?;
    let salt = argon2::password_hash::SaltString::from_b64(salt).ok()?;
    let hasher = argon2::Argon2::new(argon2::Algorithm::Argon2id, argon2::Version::V0x13, params);
    hasher.hash_password(password.as_bytes(), &salt).ok().map(|hash| hash.to_string())
}

/// One parameter of a digest: its name and the text of its value.
#[derive(Debug)]
pub struct DigestParam {
    pub name: String,
    pub value: String,
}

pub struct DigestParamView {
    pub name: Seq<char>,
    pub value: Seq<char>,
}

impl View for DigestParam {
    type V = DigestParamView;

    open spec fn view(&self) -> DigestParamView {
        DigestParamView { name: self.name@, value: self.value@ }
    }
}

/// The parameters of a list, each by its view.
pub open spec fn params_view(params: Seq<DigestParam>) -> Seq<DigestParamView> {
    params.map_values(|p: DigestParam| p@)
}

pub open spec fn params_option_view(params: Option<Vec<DigestParam>>) -> Option<
    Seq<DigestParamView>,
> {
    match params {
        Some(list) => Some(params_view(list@)),
        None => None,
    }
}

/// Every parameter that gives a degree of parallelism gives one that Argon2
/// admits.
pub open spec fn lanes_in_range(params: Seq<DigestParamView>) -> bool {
    forall|i: int|
        0 <= i < params.len() && (#[trigger] params[i]).name == "p"@ ==> (parsed_u32(
            params[i].value,
        ) matches Some(lanes) && lanes <= MAX_LANES)
}

/// A digest that can be verified: text that is a digest and whose degree of
/// parallelism, wherever it gives one, is one that Argon2 admits.
pub open spec fn digest_is_verifiable(digest: Seq<char>) -> bool {
    digest_params_of(digest) matches Some(params) && lanes_in_range(params)
}

/// Whether a password matches a digest. Text that is no digest, or that
/// asks for a parallelism that Argon2 does not admit, matches no password.
pub open spec fn password_matches(password: Seq<char>, digest: Seq<char>) -> bool {
    digest_is_verifiable(digest) && argon2_accepts(password, digest)
}

/// Calls `PasswordHash::new` and hands out the parameters that the digest
/// names, as `ParamsString::iter` gives them. The contract names the result.
#[verifier::external_body]
pub(crate) fn digest_params(digest: &str) -> (params: Option<Vec<DigestParam>>)
    ensures
        params_option_view(params) == digest_params_of(digest@),
{
    let parsed = argon2::PasswordHash::new(digest).ok()?;
    Some(parsed.params.iter().map(|(name, value)| DigestParam {
        name: name.as_str().to_owned(),
        value: value.as_str().to_owned(),
    }).collect())
}

/// Calls `PasswordHash::new` and `Argon2::verify_password`. Verification
/// rebuilds the parameters from the digest, and the crate's check of them
/// multiplies the parallelism by eight before it bounds it: the precondition
/// keeps every parallelism that the digest gives within that arithmetic.
#[verifier::external_body]
pub(crate) fn argon2_verify(password: &str, digest: &str) -> (accepted: bool)
    requires
        digest_is_verifiable(digest@),
    ensures
        accepted == argon2_accepts(password@, digest@),
{
    match argon2::PasswordHash::new(digest) {
        Ok(parsed) => argon2::Argon2::default().verify_password(password.as_bytes(), &parsed).is_ok(),
        Err(_) => false,
    }
}

/// Calls `char::is_uppercase`.
#[verifier::external_body]
pub(crate) fn is_uppercase(c: char) -> (yes: bool)
    ensures
        yes == char_is_uppercase(c),
{
    c.is_uppercase()
}

/// Calls `char::is_lowercase`.
#[verifier::external_body]
pub(crate) fn is_lowercase(c: char) -> (yes: bool)
    ensures
        yes == char_is_lowercase(c),
{
    c.is_lowercase()
}

/// A decimal digit of ASCII.
pub open spec fn is_digit(c: char) -> bool {
    '0' <= c <= '9'
}

/// Which classes of character a password holds.
#[derive(Debug, Clone, Copy, PartialEq, Eq, Structural)]
pub struct CharClasses {
    pub upper: bool,
    pub lower: bool,
    pub digit: bool,
}

/// The classes of character found in a text.
pub open spec fn char_classes(text: Seq<char>) -> CharClasses {
    CharClasses {
        upper: exists|i: int| 0 <= i < text.len() && char_is_uppercase(#[trigger] text[i]),
        lower: exists|i: int| 0 <= i < text.len() && char_is_lowercase(#[trigger] text[i]),
        digit: exists|i: int| 0 <= i < text.len() && is_digit(#[trigger] text[i]),
    }
}

/// The strength policy: at least `min_bytes` bytes, with an uppercase
/// letter, a lowercase letter and a digit.
pub open spec fn strong_enough(bytes: nat, min_bytes: usize, classes: CharClasses) -> bool {
    bytes >= min_bytes && classes.upper && classes.lower && classes.digit
}

/// Whether a password meets the strength policy.
pub open spec fn is_strong_password(password: Seq<char>, min_bytes: usize) -> bool {
    strong_enough(vstd::utf8::encode_utf8(password).len(), min_bytes, char_classes(password))
}

/// Finds which classes of character a text holds.
pub fn classify(text: &str) -> (classes: CharClasses)
    ensures
        classes == char_classes(text@),
{
    let mut upper = false;
    let mut lower = false;
    let mut digit = false;
    let ghost mut seen: int = 0;
    for c in it: text.chars()
        invariant
            it.seq() == text@,
            seen == it.index(),
            upper == exists|i: int| 0 <= i < seen && char_is_uppercase(#[trigger] text@[i]),
            lower == exists|i: int| 0 <= i < seen && char_is_lowercase(#[trigger] text@[i]),
            digit == exists|i: int| 0 <= i < seen && is_digit(#[trigger] text@[i]),
    {
        let up = is_uppercase(c);
        let low = is_lowercase(c);
        let dig = '0' <= c && c <= '9';
        proof {
            assert(c == text@[seen]);
            if up {
                assert(char_is_uppercase(text@[seen]));
            }
            if low {
                assert(char_is_lowercase(text@[seen]));
            }
            if dig {
                assert(is_digit(text@[seen]));
            }
            seen = seen + 1;
        }
        upper = upper || up;
        lower = lower || low;
        digit = digit || dig;
    }
    CharClasses { upper, lower, digit }
}

/// Decides the strength policy from a password's length in bytes and the
/// classes of character it holds.
pub fn check_strength(bytes: usize, min_bytes: usize, classes: CharClasses) -> (checked: Result<
    (),
    AuthError,
>)
    ensures
        checked is Ok <==> strong_enough(bytes as nat, min_bytes, classes),
        checked matches Err(e) ==> e == AuthError::WeakPassword,
{
    if bytes < min_bytes {
        return Err(AuthError::WeakPassword);
    }
    if !classes.upper || !classes.lower || !classes.digit {
        return Err(AuthError::WeakPassword);
    }
    Ok(())
}

/// What hashing returns for the outcome of the digest computation: the
/// digest, provided that it can be verified again, and otherwise an internal
/// error.
pub open spec fn hash_outcome(digest: Option<Seq<char>>) -> Result<Seq<char>, AuthError> {
    match digest {
        Some(d) => if digest_is_verifiable(d) {
            Ok(d)
        } else {
            Err(AuthError::Internal)
        },
        None => Err(AuthError::Internal),
    }
}

/// Decides whether the parameters of a digest keep the parallelism within
/// what Argon2 admits.
pub fn check_lanes(params: &Vec<DigestParam>) -> (in_range: bool)
    ensures
        in_range == lanes_in_range(params_view(params@)),
{
    let mut k: usize = 0;
    while k < params.len()
        invariant
            k <= params.len(),
            forall|i: int|
                0 <= i < k && (#[trigger] params_view(params@)[i]).name == "p"@ ==> (parsed_u32(
                    params_view(params@)[i].value,
                ) matches Some(lanes) && lanes <= MAX_LANES),
        decreases params.len() - k,
    {
        if same_text(params[k].name.as_str(), "p") {
            let in_range = match parse_u32(params[k].value.as_str()) {
                Some(lanes) => lanes <= MAX_LANES,
                None => false,
            };
            if !in_range {
                assert(params_view(params@)[k as int].name == "p"@);
                return false;
            }
        }
        k = k + 1;
    }
    true
}

/// Decides whether a digest can be verified.
pub fn is_verifiable(digest: &str) -> (verifiable: bool)
    ensures
        verifiable == digest_is_verifiable(digest@),
{
    match digest_params(digest) {
        Some(params) => check_lanes(&params),
        None => false,
    }
}

/// The digest that the service computes for a password under a salt.
pub open spec fn password_digest(
    config: &crate::config::AuthConfig,
    password: Seq<char>,
    salt: Seq<char>,
) -> Result<Seq<char>, AuthError> {
    if config.argon2_parallelism > MAX_LANES {
        Err(AuthError::Internal)
    } else {
        hash_outcome(
            argon2_digest(
                password,
                salt,
                config.argon2_memory_cost,
                config.argon2_time_cost,
                config.argon2_parallelism,
            ),
        )
    }
}

/// The text of a result that holds a string.
pub open spec fn text_result(result: Result<String, AuthError>) -> Result<Seq<char>, AuthError> {
    match result {
        Ok(t) => Ok(t@),
        Err(e) => Err(e),
    }
}

impl AuthService {
    /// Hashes a password under the given salt with the configured costs.
    pub fn hash_password_with_salt(&self, password: &str, salt: &str) -> (digest: Result<
        String,
        AuthError,
    >)
        ensures
            text_result(digest) == password_digest(self.config(), password@, salt@),
            digest matches Ok(d) ==> password_matches(password@, d@),
    {
        let config = self.config();
        if config.argon2_parallelism > MAX_LANES {
            return Err(AuthError::Internal);
        }
        match argon2_hash(
            password,
            salt,
            config.argon2_memory_cost,
            config.argon2_time_cost,
            config.argon2_parallelism,
        ) {
            Some(d) => if is_verifiable(d.as_str()) {
                Ok(d)
            } else {
                Err(AuthError::Internal)
            },
            None => Err(AuthError::Internal),
        }
    }

    /// Hashes a password under a fresh random salt. Whatever salt is drawn,
    /// the digest is that of the password under it, and the password
    /// verifies against the digest.
    pub fn hash_password(&self, password: &str) -> (digest: Result<String, AuthError>)
        ensures
            exists|salt: Seq<char>|
                text_result(digest) == password_digest(self.config(), password@, salt),
            digest matches Ok(d) ==> password_matches(password@, d@),
            digest matches Err(e) ==> e == AuthError::Internal,
    {
        let salt = fresh_salt();
        let digest = self.hash_password_with_salt(password, salt.as_str());
        assert(text_result(digest) == password_digest(self.config(), password@, salt@));
        digest
    }

    /// Whether a password matches a digest. Fails closed: text that is no
    /// digest, or that cannot be verified, matches no password.
    pub fn verify_password(&self, password: &str, hash: &str) -> (matches: bool)
        ensures
            matches == password_matches(password@, hash@),
    {
        if !is_verifiable(hash) {
            return false;
        }
        argon2_verify(password, hash)
    }

    /// Accepts a password that meets the strength policy and rejects any
    /// other as weak.
    pub fn validate_password(&self, password: &str) -> (checked: Result<(), AuthError>)
        ensures
            checked is Ok <==> is_strong_password(password@, self.config().min_password_length),
            checked matches Err(e) ==> e == AuthError::WeakPassword,
    {
        check_strength(
            password.as_bytes().len(),
            self.config().min_password_length,
            classify(password),
        )
    }
}

} // verus!
