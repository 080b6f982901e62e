//! The token issuer: signed access tokens, the signed statement inside a
//! refresh token, and the wire format that joins that statement to a secret.

use crate::config::AuthConfig;
use crate::encoding::{
    base64_url_encode, hex_encode, hex_string, lemma_hex_string_has_no_dot, random_bytes,
    same_text, sha256, sha256_digest,
};
use crate::error::AuthError;
use crate::lookup::{first_index, lemma_first_index_absent, lemma_first_index_found};
use crate::models::{spec_time_after, text_view, time_after, User, UserView};
use crate::service::AuthService;
use vstd::prelude::*;
use vstd::string::StrSliceExecFns;
use vstd::string::StringExecFns;

verus! {

// ---------------------------------------------------------------------------
// Claims as a signed token carries them
// ---------------------------------------------------------------------------
/// The value of one claim: text, a whole number, or anything else.
#[derive(Debug)]
pub enum ClaimValue {
    Text(String),
    Number(i64),
    Other,
}

/// One named claim of a token.
#[derive(Debug)]
pub struct Claim {
    pub name: String,
    pub value: ClaimValue,
}

pub enum ClaimValueView {
    Text(Seq<char>),
    Number(i64),
    Other,
}

pub struct ClaimView {
    pub name: Seq<char>,
    pub value: ClaimValueView,
}

impl View for ClaimValue {
    type V = ClaimValueView;

    open spec fn view(&self) -> ClaimValueView {
        match self {
            ClaimValue::Text(t) => ClaimValueView::Text(t@),
            ClaimValue::Number(n) => ClaimValueView::Number(*n),
            ClaimValue::Other => ClaimValueView::Other,
        }
    }
}

impl View for Claim {
    type V = ClaimView;

    open spec fn view(&self) -> ClaimView {
        ClaimView { name: self.name@, value: self.value@ }
    }
}

/// The claims of a list, each by its view.
pub open spec fn claims_view(claims: Seq<Claim>) -> Seq<ClaimView> {
    claims.map_values(|c: Claim| c@)
}

pub open spec fn claims_option_view(claims: Option<Vec<Claim>>) -> Option<Seq<ClaimView>> {
    match claims {
        Some(list) => Some(claims_view(list@)),
        None => None,
    }
}

pub open spec fn audience_view(audience: Option<&str>) -> Option<Seq<char>> {
    match audience {
        Some(a) => Some(a@),
        None => None,
    }
}

// ---------------------------------------------------------------------------
// What the outside crates compute
// ---------------------------------------------------------------------------
/// The compact HS256 token that carries the claims, signed with the secret.
pub uninterp spec fn jwt_encoding(claims: Seq<ClaimView>, secret: Seq<char>) -> Option<Seq<char>>;

/// The claims of a token whose HS256 signature verifies under the secret and
/// whose issuer and audience claims, where present, name the given ones.
/// The token must carry an expiry, which is compared with no time.
pub uninterp spec fn jwt_decoding(
    token: Seq<char>,
    secret: Seq<char>,
    issuer: Seq<char>,
    audience: Option<Seq<char>>,
) -> Option<Seq<ClaimView>>;

/// The hyphenated lowercase text of an id.
pub uninterp spec fn uuid_text_of(id: u128) -> Seq<char>;

/// The id that a text denotes, if it denotes one.
pub uninterp spec fn uuid_parsed(text: Seq<char>) -> Option<u128>;

/// Calls `jsonwebtoken::encode` with the default header (HS256) on a JSON
/// object made of the claims, one member for each. The contract names the
/// token.
#[verifier::external_body]
pub(crate) fn jwt_encode(claims: &Vec<Claim>, secret: &str) -> (token: Option<String>)
    ensures
        text_view(token) == jwt_encoding(claims_view(claims@), secret@),
{
    let payload: serde_json::Map<String, serde_json::Value> = claims.iter().map(|c| (c.name.clone(), match &c.value {
        ClaimValue::Text(t) => serde_json::Value::from(t.as_str()),
        ClaimValue::Number(n) => serde_json::Value::from(*n),
        ClaimValue::Other => serde_json::Value::Null,
    })).collect();
    let key = jsonwebtoken::EncodingKey::from_secret(secret.as_bytes());
    jsonwebtoken::encode(&jsonwebtoken::Header::default(), &payload, &key).ok()
}

/// Calls `jsonwebtoken::decode` for HS256 with the issuer, and the audience
/// if one is given, set on the validation and with its expiry check switched
/// off, and hands out the members of the claims object. The contract names
/// the result.
#[verifier::external_body]
pub(crate) fn jwt_decode(token: &str, secret: &str, issuer: &str, audience: Option<&str>) -> (claims:
    Option<Vec<Claim>>)
    ensures
        claims_option_view(claims) == jwt_decoding(token@, secret@, issuer@, audience_view(audience)),
{
    let mut rules = jsonwebtoken::Validation::default();
    rules.validate_exp = false;
    rules.set_issuer(&[issuer]);
    if let Some(wanted) = audience { rules.set_audience(&[wanted]); }
    let key = jsonwebtoken::DecodingKey::from_secret(secret.as_bytes());
    let data = jsonwebtoken::decode::<serde_json::Map<String, serde_json::Value>>(token, &key, &rules).ok()?;
    Some(data.claims.into_iter().map(|(name, value)| Claim { name, value: match value {
        serde_json::Value::String(t) => ClaimValue::Text(t),
        serde_json::Value::Number(n) => n.as_i64().map_or(ClaimValue::Other, ClaimValue::Number),
        _ => ClaimValue::Other,
    } }).collect())
}

/// Calls `Uuid::new_v4` and returns the id as a number. Nothing is claimed
/// of it.
#[verifier::external_body]
pub(crate) fn fresh_id() -> (id: u128) {
    uuid::Uuid::new_v4().as_u128()
}

/// Calls `Uuid::from_u128` and formats the id. The contract names the text,
/// and claims what the crate documents of the texts it writes: parsing one
/// gives the id back.
#[verifier::external_body]
pub(crate) fn uuid_text(id: u128) -> (text: String)
    ensures
        text@ == uuid_text_of(id),
        uuid_parsed(text@) == Some(id),
{
    uuid::Uuid::from_u128(id).to_string()
}

/// Calls `Uuid::parse_str`. The contract names the result.
#[verifier::external_body]
pub(crate) fn uuid_parse(text: &str) -> (id: Option<u128>)
    ensures
        id == uuid_parsed(text@),
{
    uuid::Uuid::parse_str(text).ok().map(|parsed| parsed.as_u128())
}

// ---------------------------------------------------------------------------
// Reading claims
// ---------------------------------------------------------------------------
/// Holds of a claim with the given name.
pub open spec fn claim_named(name: Seq<char>) -> spec_fn(ClaimView) -> bool {
    |c: ClaimView| c.name == name
}

/// The text of the first claim with a name, if it is text.
pub open spec fn claim_text(claims: Seq<ClaimView>, name: Seq<char>) -> Option<Seq<char>> {
    match first_index(claims, claim_named(name)) {
        Some(i) => match claims[i].value {
            ClaimValueView::Text(t) => Some(t),
            _ => None,
        },
        None => None,
    }
}

/// The number of the first claim with a name, if it is a number.
pub open spec fn claim_number(claims: Seq<ClaimView>, name: Seq<char>) -> Option<i64> {
    match first_index(claims, claim_named(name)) {
        Some(i) => match claims[i].value {
            ClaimValueView::Number(n) => Some(n),
            _ => None,
        },
        None => None,
    }
}

/// The id that the first claim with a name denotes.
pub open spec fn claim_id(claims: Seq<ClaimView>, name: Seq<char>) -> Option<u128> {
    match claim_text(claims, name) {
        Some(t) => uuid_parsed(t),
        None => None,
    }
}

fn find_claim(claims: &Vec<Claim>, name: &str) -> (at: Option<usize>)
    ensures
        at is Some <==> first_index(claims_view(claims@), claim_named(name@)) is Some,
        at matches Some(k) ==> k < claims.len() && first_index(
            claims_view(claims@),
            claim_named(name@),
        ) == Some(k as int),
{
    let wanted = String::from_str(name);
    let mut k: usize = 0;
    while k < claims.len()
        invariant
            k <= claims.len(),
            wanted@ == name@,
            forall|j: int|
                0 <= j < k ==> !claim_named(name@)(#[trigger] claims_view(claims@)[j]),
        decreases claims.len() - k,
    {
        if claims[k].name == wanted {
            proof {
                lemma_first_index_found(claims_view(claims@), claim_named(name@), k as int);
            }
            return Some(k);
        }
        k = k + 1;
    }
    proof {
        lemma_first_index_absent(claims_view(claims@), claim_named(name@));
    }
    None
}

/// Reads the text of a claim.
pub fn read_text(claims: &Vec<Claim>, name: &str) -> (text: Option<String>)
    ensures
        text_view(text) == claim_text(claims_view(claims@), name@),
{
    match find_claim(claims, name) {
        Some(k) => match &claims[k].value {
            ClaimValue::Text(t) => Some(t.clone()),
            _ => None,
        },
        None => None,
    }
}

/// Reads the number of a claim.
pub fn read_number(claims: &Vec<Claim>, name: &str) -> (number: Option<i64>)
    ensures
        number == claim_number(claims_view(claims@), name@),
{
    match find_claim(claims, name) {
        Some(k) => match &claims[k].value {
            ClaimValue::Number(n) => Some(*n),
            _ => None,
        },
        None => None,
    }
}

/// Reads the id of a claim.
pub fn read_id(claims: &Vec<Claim>, name: &str) -> (id: Option<u128>)
    ensures
        id == claim_id(claims_view(claims@), name@),
{
    match read_text(claims, name) {
        Some(t) => uuid_parse(t.as_str()),
        None => None,
    }
}

fn text_claim(name: &str, value: String) -> (claim: Claim)
    ensures
        claim@ == (ClaimView { name: name@, value: ClaimValueView::Text(value@) }),
{
    Claim { name: String::from_str(name), value: ClaimValue::Text(value) }
}

fn number_claim(name: &str, value: i64) -> (claim: Claim)
    ensures
        claim@ == (ClaimView { name: name@, value: ClaimValueView::Number(value) }),
{
    Claim { name: String::from_str(name), value: ClaimValue::Number(value) }
}

/// Among claims with distinct names, the claim at a position is the one
/// found under its name.
pub proof fn lemma_claim_found(claims: Seq<ClaimView>, at: int)
    requires
        0 <= at < claims.len(),
        forall|j: int| 0 <= j < at ==> (#[trigger] claims[j]).name != claims[at].name,
    ensures
        first_index(claims, claim_named(claims[at].name)) == Some(at),
{
    lemma_first_index_found(claims, claim_named(claims[at].name), at);
}

/// In a list that names the nine access claims in their order, each is found
/// under its name.
pub proof fn lemma_access_names(claims: Seq<ClaimView>)
    requires
        claims.len() == 9,
        claims[0].name == "sub"@,
        claims[1].name == "email"@,
        claims[2].name == "name"@,
        claims[3].name == "role"@,
        claims[4].name == "iat"@,
        claims[5].name == "exp"@,
        claims[6].name == "iss"@,
        claims[7].name == "aud"@,
        claims[8].name == "jti"@,
    ensures
        first_index(claims, claim_named("sub"@)) == Some(0int),
        first_index(claims, claim_named("email"@)) == Some(1int),
        first_index(claims, claim_named("name"@)) == Some(2int),
        first_index(claims, claim_named("role"@)) == Some(3int),
        first_index(claims, claim_named("iat"@)) == Some(4int),
        first_index(claims, claim_named("exp"@)) == Some(5int),
        first_index(claims, claim_named("iss"@)) == Some(6int),
        first_index(claims, claim_named("aud"@)) == Some(7int),
        first_index(claims, claim_named("jti"@)) == Some(8int),
{
    reveal_strlit("sub");
    reveal_strlit("email");
    reveal_strlit("name");
    reveal_strlit("role");
    reveal_strlit("iat");
    reveal_strlit("exp");
    reveal_strlit("iss");
    reveal_strlit("aud");
    reveal_strlit("jti");
    assert("sub"@[0] == 's' && "email"@[0] == 'e' && "name"@[0] == 'n' && "role"@[0] == 'r');
    assert("iat"@[0] == 'i' && "iat"@[1] == 'a' && "iss"@[1] == 's' && "exp"@[1] == 'x');
    assert("aud"@[0] == 'a' && "jti"@[0] == 'j' && "email"@[1] == 'm');
    lemma_claim_found(claims, 0);
    lemma_claim_found(claims, 1);
    lemma_claim_found(claims, 2);
    lemma_claim_found(claims, 3);
    lemma_claim_found(claims, 4);
    lemma_claim_found(claims, 5);
    lemma_claim_found(claims, 6);
    lemma_claim_found(claims, 7);
    lemma_claim_found(claims, 8);
}

/// In a list that names the five refresh claims in their order, each is
/// found under its name.
pub proof fn lemma_refresh_names(claims: Seq<ClaimView>)
    requires
        claims.len() == 5,
        claims[0].name == "sub"@,
        claims[1].name == "tid"@,
        claims[2].name == "iat"@,
        claims[3].name == "exp"@,
        claims[4].name == "iss"@,
    ensures
        first_index(claims, claim_named("sub"@)) == Some(0int),
        first_index(claims, claim_named("tid"@)) == Some(1int),
        first_index(claims, claim_named("iat"@)) == Some(2int),
        first_index(claims, claim_named("exp"@)) == Some(3int),
        first_index(claims, claim_named("iss"@)) == Some(4int),
{
    reveal_strlit("sub");
    reveal_strlit("tid");
    reveal_strlit("iat");
    reveal_strlit("exp");
    reveal_strlit("iss");
    assert("sub"@[0] == 's' && "tid"@[0] == 't' && "exp"@[0] == 'e');
    assert("iat"@[0] == 'i' && "iat"@[1] == 'a' && "iss"@[1] == 's');
    lemma_claim_found(claims, 0);
    lemma_claim_found(claims, 1);
    lemma_claim_found(claims, 2);
    lemma_claim_found(claims, 3);
    lemma_claim_found(claims, 4);
}

// ---------------------------------------------------------------------------
// Expiry
// ---------------------------------------------------------------------------
/// Seconds for which a signed statement is still honoured after its expiry,
/// to allow for clocks that disagree.
pub const CLOCK_LEEWAY: i64 = 60;

/// A signed statement has expired once its expiry lies more than the leeway
/// in the past.
pub open spec fn statement_expired(exp: i64, now: i64) -> bool {
    exp < now - CLOCK_LEEWAY
}

pub fn is_statement_expired(exp: i64, now: i64) -> (expired: bool)
    ensures
        expired == statement_expired(exp, now),
{
    match now.checked_sub(CLOCK_LEEWAY) {
        Some(limit) => exp < limit,
        None => false,
    }
}

// ---------------------------------------------------------------------------
// Access tokens
// ---------------------------------------------------------------------------
/// What an access token states.
#[derive(Debug)]
pub struct AccessTokenClaims {
    /// The account.
    pub sub: u128,
    pub email: String,
    pub name: String,
    pub role: String,
    pub iat: i64,
    pub exp: i64,
    pub iss: String,
    pub aud: String,
    /// The id of the token itself.
    pub jti: u128,
}

pub struct AccessTokenClaimsView {
    pub sub: u128,
    pub email: Seq<char>,
    pub name: Seq<char>,
    pub role: Seq<char>,
    pub iat: i64,
    pub exp: i64,
    pub iss: Seq<char>,
    pub aud: Seq<char>,
    pub jti: u128,
}

impl View for AccessTokenClaims {
    type V = AccessTokenClaimsView;

    open spec fn view(&self) -> AccessTokenClaimsView {
        AccessTokenClaimsView {
            sub: self.sub,
            email: self.email@,
            name: self.name@,
            role: self.role@,
            iat: self.iat,
            exp: self.exp,
            iss: self.iss@,
            aud: self.aud@,
            jti: self.jti,
        }
    }
}

impl AccessTokenClaimsView {
    /// The claims as a token carries them.
    pub open spec fn fields(self) -> Seq<ClaimView> {
        seq![
            ClaimView { name: "sub"@, value: ClaimValueView::Text(uuid_text_of(self.sub)) },
            ClaimView { name: "email"@, value: ClaimValueView::Text(self.email) },
            ClaimView { name: "name"@, value: ClaimValueView::Text(self.name) },
            ClaimView { name: "role"@, value: ClaimValueView::Text(self.role) },
            ClaimView { name: "iat"@, value: ClaimValueView::Number(self.iat) },
            ClaimView { name: "exp"@, value: ClaimValueView::Number(self.exp) },
            ClaimView { name: "iss"@, value: ClaimValueView::Text(self.iss) },
            ClaimView { name: "aud"@, value: ClaimValueView::Text(self.aud) },
            ClaimView { name: "jti"@, value: ClaimValueView::Text(uuid_text_of(self.jti)) },
        ]
    }
}

/// The claims of an access token issued to an account at `now`.
pub open spec fn access_claims_for(
    user: UserView,
    config: &AuthConfig,
    now: i64,
    jti: u128,
) -> AccessTokenClaimsView {
    AccessTokenClaimsView {
        sub: user.id,
        email: user.email,
        name: user.name,
        role: user.role.spec_as_str(),
        iat: now,
        exp: spec_time_after(now, config.access_token_expiration),
        iss: config.jwt_issuer@,
        aud: config.jwt_audience@,
        jti: jti,
    }
}

/// The access claims that a list of claims holds, if it holds all of them.
pub open spec fn access_claims_of(claims: Seq<ClaimView>) -> Option<AccessTokenClaimsView> {
    if claim_id(claims, "sub"@) is Some && claim_text(claims, "email"@) is Some && claim_text(
        claims,
        "name"@,
    ) is Some && claim_text(claims, "role"@) is Some && claim_number(claims, "iat"@) is Some
        && claim_number(claims, "exp"@) is Some && claim_text(claims, "iss"@) is Some
        && claim_text(claims, "aud"@) is Some && claim_id(claims, "jti"@) is Some {
        Some(
            AccessTokenClaimsView {
                sub: claim_id(claims, "sub"@).unwrap(),
                email: claim_text(claims, "email"@).unwrap(),
                name: claim_text(claims, "name"@).unwrap(),
                role: claim_text(claims, "role"@).unwrap(),
                iat: claim_number(claims, "iat"@).unwrap(),
                exp: claim_number(claims, "exp"@).unwrap(),
                iss: claim_text(claims, "iss"@).unwrap(),
                aud: claim_text(claims, "aud"@).unwrap(),
                jti: claim_id(claims, "jti"@).unwrap(),
            },
        )
    } else {
        None
    }
}

/// What the validation of an access token returns for the outcome of
/// decoding it: the claims, provided that decoding gave a full set of them
/// that names the issuer and the audience and has not expired, and otherwise
/// the error of an invalid token.
pub open spec fn access_validation(
    decoded: Option<Seq<ClaimView>>,
    issuer: Seq<char>,
    audience: Seq<char>,
    now: i64,
) -> Result<AccessTokenClaimsView, AuthError> {
    match decoded {
        None => Err(AuthError::InvalidToken),
        Some(claims) => match access_claims_of(claims) {
            None => Err(AuthError::InvalidToken),
            Some(c) => if c.iss != issuer || c.aud != audience || statement_expired(c.exp, now) {
                Err(AuthError::InvalidToken)
            } else {
                Ok(c)
            },
        },
    }
}

pub open spec fn access_result_view(result: Result<AccessTokenClaims, AuthError>) -> Result<
    AccessTokenClaimsView,
    AuthError,
> {
    match result {
        Ok(c) => Ok(c@),
        Err(e) => Err(e),
    }
}

impl AccessTokenClaims {
    /// The claims as a token carries them.
    pub fn to_claims(&self) -> (claims: Vec<Claim>)
        ensures
            claims_view(claims@) == self@.fields(),
            access_claims_of(claims_view(claims@)) == Some(self@),
    {
        proof {
            lemma_access_names(self@.fields());
        }
        let mut claims: Vec<Claim> = Vec::new();
        claims.push(text_claim("sub", uuid_text(self.sub)));
        claims.push(text_claim("email", self.email.clone()));
        claims.push(text_claim("name", self.name.clone()));
        claims.push(text_claim("role", self.role.clone()));
        claims.push(number_claim("iat", self.iat));
        claims.push(number_claim("exp", self.exp));
        claims.push(text_claim("iss", self.iss.clone()));
        claims.push(text_claim("aud", self.aud.clone()));
        claims.push(text_claim("jti", uuid_text(self.jti)));
        assert(claims_view(claims@) =~= self@.fields());
        claims
    }

    /// Reads access claims out of the claims of a token.
    pub fn from_claims(claims: &Vec<Claim>) -> (parsed: Option<AccessTokenClaims>)
        ensures
            match access_claims_of(claims_view(claims@)) {
                Some(c) => parsed matches Some(p) && p@ == c,
                None => parsed is None,
            },
    {
        let sub = match read_id(claims, "sub") {
            Some(v) => v,
            None => return None,
        };
        let email = match read_text(claims, "email") {
            Some(v) => v,
            None => return None,
        };
        let name = match read_text(claims, "name") {
            Some(v) => v,
            None => return None,
        };
        let role = match read_text(claims, "role") {
            Some(v) => v,
            None => return None,
        };
        let iat = match read_number(claims, "iat") {
            Some(v) => v,
            None => return None,
        };
        let exp = match read_number(claims, "exp") {
            Some(v) => v,
            None => return None,
        };
        let iss = match read_text(claims, "iss") {
            Some(v) => v,
            None => return None,
        };
        let aud = match read_text(claims, "aud") {
            Some(v) => v,
            None => return None,
        };
        let jti = match read_id(claims, "jti") {
            Some(v) => v,
            None => return None,
        };
        Some(AccessTokenClaims { sub, email, name, role, iat, exp, iss, aud, jti })
    }

    /// Decides the validation of an access token from the outcome of
    /// decoding it.
    pub fn check(decoded: Option<Vec<Claim>>, issuer: &str, audience: &str, now: i64) -> (checked:
        Result<AccessTokenClaims, AuthError>)
        ensures
            access_result_view(checked) == access_validation(
                claims_option_view(decoded),
                issuer@,
                audience@,
                now,
            ),
    {
        let claims = match decoded {
            Some(claims) => claims,
            None => return Err(AuthError::InvalidToken),
        };
        let parsed = match AccessTokenClaims::from_claims(&claims) {
            Some(parsed) => parsed,
            None => return Err(AuthError::InvalidToken),
        };
        if !same_text(parsed.iss.as_str(), issuer) || !same_text(parsed.aud.as_str(), audience)
            || is_statement_expired(parsed.exp, now) {
            return Err(AuthError::InvalidToken);
        }
        Ok(parsed)
    }
}

// ---------------------------------------------------------------------------
// The signed statement of a refresh token
// ---------------------------------------------------------------------------
/// What the signed part of a refresh token states.
#[derive(Debug)]
pub struct RefreshTokenClaims {
    /// The account.
    pub sub: u128,
    /// The refresh-token record.
    pub tid: u128,
    pub iat: i64,
    pub exp: i64,
    pub iss: String,
}

pub struct RefreshTokenClaimsView {
    pub sub: u128,
    pub tid: u128,
    pub iat: i64,
    pub exp: i64,
    pub iss: Seq<char>,
}

impl View for RefreshTokenClaims {
    type V = RefreshTokenClaimsView;

    open spec fn view(&self) -> RefreshTokenClaimsView {
        RefreshTokenClaimsView {
            sub: self.sub,
            tid: self.tid,
            iat: self.iat,
            exp: self.exp,
            iss: self.iss@,
        }
    }
}

impl RefreshTokenClaimsView {
    /// The claims as a token carries them.
    pub open spec fn fields(self) -> Seq<ClaimView> {
        seq![
            ClaimView { name: "sub"@, value: ClaimValueView::Text(uuid_text_of(self.sub)) },
            ClaimView { name: "tid"@, value: ClaimValueView::Text(uuid_text_of(self.tid)) },
            ClaimView { name: "iat"@, value: ClaimValueView::Number(self.iat) },
            ClaimView { name: "exp"@, value: ClaimValueView::Number(self.exp) },
            ClaimView { name: "iss"@, value: ClaimValueView::Text(self.iss) },
        ]
    }
}

/// The statement signed into a refresh token issued at `now`.
pub open spec fn refresh_claims_for(
    user_id: u128,
    token_id: u128,
    config: &AuthConfig,
    now: i64,
) -> RefreshTokenClaimsView {
    RefreshTokenClaimsView {
        sub: user_id,
        tid: token_id,
        iat: now,
        exp: spec_time_after(now, config.refresh_token_expiration),
        iss: config.jwt_issuer@,
    }
}

/// The refresh claims that a list of claims holds, if it holds all of them.
pub open spec fn refresh_claims_of(claims: Seq<ClaimView>) -> Option<RefreshTokenClaimsView> {
    if claim_id(claims, "sub"@) is Some && claim_id(claims, "tid"@) is Some && claim_number(
        claims,
        "iat"@,
    ) is Some && claim_number(claims, "exp"@) is Some && claim_text(claims, "iss"@) is Some {
        Some(
            RefreshTokenClaimsView {
                sub: claim_id(claims, "sub"@).unwrap(),
                tid: claim_id(claims, "tid"@).unwrap(),
                iat: claim_number(claims, "iat"@).unwrap(),
                exp: claim_number(claims, "exp"@).unwrap(),
                iss: claim_text(claims, "iss"@).unwrap(),
            },
        )
    } else {
        None
    }
}

/// What the validation of the signed part of a refresh token returns for
/// the outcome of decoding it. With `check_expiry` unset only the signature
/// and the issuer count.
pub open spec fn refresh_validation(
    decoded: Option<Seq<ClaimView>>,
    issuer: Seq<char>,
    now: i64,
    check_expiry: bool,
) -> Result<RefreshTokenClaimsView, AuthError> {
    match decoded {
        None => Err(AuthError::InvalidToken),
        Some(claims) => match refresh_claims_of(claims) {
            None => Err(AuthError::InvalidToken),
            Some(c) => if c.iss != issuer || (check_expiry && statement_expired(c.exp, now)) {
                Err(AuthError::InvalidToken)
            } else {
                Ok(c)
            },
        },
    }
}

pub open spec fn refresh_result_view(result: Result<RefreshTokenClaims, AuthError>) -> Result<
    RefreshTokenClaimsView,
    AuthError,
> {
    match result {
        Ok(c) => Ok(c@),
        Err(e) => Err(e),
    }
}

impl RefreshTokenClaims {
    /// The claims as a token carries them.
    pub fn to_claims(&self) -> (claims: Vec<Claim>)
        ensures
            claims_view(claims@) == self@.fields(),
            refresh_claims_of(claims_view(claims@)) == Some(self@),
    {
        proof {
            lemma_refresh_names(self@.fields());
        }
        let mut claims: Vec<Claim> = Vec::new();
        claims.push(text_claim("sub", uuid_text(self.sub)));
        claims.push(text_claim("tid", uuid_text(self.tid)));
        claims.push(number_claim("iat", self.iat));
        claims.push(number_claim("exp", self.exp));
        claims.push(text_claim("iss", self.iss.clone()));
        assert(claims_view(claims@) =~= self@.fields());
        claims
    }

    /// Reads refresh claims out of the claims of a token.
    pub fn from_claims(claims: &Vec<Claim>) -> (parsed: Option<RefreshTokenClaims>)
        ensures
            match refresh_claims_of(claims_view(claims@)) {
                Some(c) => parsed matches Some(p) && p@ == c,
                None => parsed is None,
            },
    {
        let sub = match read_id(claims, "sub") {
            Some(v) => v,
            None => return None,
        };
        let tid = match read_id(claims, "tid") {
            Some(v) => v,
            None => return None,
        };
        let iat = match read_number(claims, "iat") {
            Some(v) => v,
            None => return None,
        };
        let exp = match read_number(claims, "exp") {
            Some(v) => v,
            None => return None,
        };
        let iss = match read_text(claims, "iss") {
            Some(v) => v,
            None => return None,
        };
        Some(RefreshTokenClaims { sub, tid, iat, exp, iss })
    }

    /// Decides the validation of the signed part of a refresh token from the
    /// outcome of decoding it.
    pub fn check(decoded: Option<Vec<Claim>>, issuer: &str, now: i64, check_expiry: bool) -> (checked:
        Result<RefreshTokenClaims, AuthError>)
        ensures
            refresh_result_view(checked) == refresh_validation(
                claims_option_view(decoded),
                issuer@,
                now,
                check_expiry,
            ),
    {
        let claims = match decoded {
            Some(claims) => claims,
            None => return Err(AuthError::InvalidToken),
        };
        let parsed = match RefreshTokenClaims::from_claims(&claims) {
            Some(parsed) => parsed,
            None => return Err(AuthError::InvalidToken),
        };
        if !same_text(parsed.iss.as_str(), issuer) || (check_expiry && is_statement_expired(
            parsed.exp,
            now,
        )) {
            return Err(AuthError::InvalidToken);
        }
        Ok(parsed)
    }
}

// ---------------------------------------------------------------------------
// The wire format of a refresh token
// ---------------------------------------------------------------------------
/// A refresh token on the wire: the signed statement, a dot, the secret.
pub open spec fn refresh_token_text(statement: Seq<char>, secret: Seq<char>) -> Seq<char> {
    statement + seq!['.'] + secret
}

/// Holds of the position of the last dot of a text.
pub open spec fn is_last_dot(text: Seq<char>, at: int) -> bool {
    &&& 0 <= at < text.len()
    &&& text[at] == '.'
    &&& forall|j: int| at < j < text.len() ==> text[j] != '.'
}

/// The two parts of a refresh token, split at its last dot: the signed
/// statement and the secret. A text without a dot has no parts.
pub open spec fn refresh_token_parts(token: Seq<char>) -> Option<(Seq<char>, Seq<char>)> {
    if exists|at: int| is_last_dot(token, at) {
        let at = choose|at: int| is_last_dot(token, at);
        Some((token.subrange(0, at), token.subrange(at + 1, token.len() as int)))
    } else {
        None
    }
}

/// A text has at most one last dot.
pub proof fn lemma_last_dot_unique(text: Seq<char>, first: int, second: int)
    requires
        is_last_dot(text, first),
        is_last_dot(text, second),
    ensures
        first == second,
{
}

/// A refresh token made of a statement and a hexadecimal secret splits back
/// into the two.
pub proof fn law_refresh_token_splits(statement: Seq<char>, secret: Seq<u8>)
    ensures
        refresh_token_parts(refresh_token_text(statement, hex_string(secret))) == Some(
            (statement, hex_string(secret)),
        ),
{
    let text = refresh_token_text(statement, hex_string(secret));
    let at = statement.len() as int;
    lemma_hex_string_has_no_dot(secret);
    assert forall|j: int| at < j < text.len() implies text[j] != '.' by {
        assert(text[j] == hex_string(secret)[j - at - 1]);
    }
    assert(is_last_dot(text, at));
    let chosen = choose|k: int| is_last_dot(text, k);
    lemma_last_dot_unique(text, at, chosen);
    assert(text.subrange(0, at) =~= statement);
    assert(text.subrange(at + 1, text.len() as int) =~= hex_string(secret));
}

pub open spec fn parts_view(parts: Option<(String, String)>) -> Option<(Seq<char>, Seq<char>)> {
    match parts {
        Some((statement, secret)) => Some((statement@, secret@)),
        None => None,
    }
}

/// Splits a refresh token at its last dot.
pub fn split_refresh_token(token: &str) -> (parts: Option<(String, String)>)
    ensures
        parts_view(parts) == refresh_token_parts(token@),
{
    let total: usize = token.unicode_len();
    let mut at: Option<usize> = None;
    let mut n: usize = 0;
    for c in it: token.chars()
        invariant
            it.seq() == token@,
            total == token@.len(),
            n == it.index(),
            match at {
                Some(i) => i < n && token@[i as int] == '.' && forall|j: int|
                    i < j < n ==> token@[j] != '.',
                None => forall|j: int| 0 <= j < n ==> token@[j] != '.',
            },
    {
        if c == '.' {
            at = Some(n);
        }
        n = n + 1;
    }
    match at {
        Some(i) => {
            proof {
                assert(is_last_dot(token@, i as int));
                let chosen = choose|k: int| is_last_dot(token@, k);
                lemma_last_dot_unique(token@, i as int, chosen);
            }
            let statement = String::from_str(token.substring_char(0, i));
            let secret = String::from_str(token.substring_char(i + 1, total));
            Some((statement, secret))
        },
        None => {
            assert(forall|k: int| !is_last_dot(token@, k));
            None
        },
    }
}

// ---------------------------------------------------------------------------
// Digests of token secrets
// ---------------------------------------------------------------------------
/// The digest under which the secret of a token is stored: the hexadecimal
/// text of the SHA-256 digest of its UTF-8 bytes.
pub open spec fn token_digest(secret: Seq<char>) -> Seq<char> {
    hex_string(sha256_digest(vstd::utf8::encode_utf8(secret)))
}

/// The text of a fresh secret made from random bytes.
pub open spec fn secret_text(bytes: Seq<u8>) -> Seq<char> {
    hex_string(bytes)
}

// ---------------------------------------------------------------------------
// The issuer's operations
// ---------------------------------------------------------------------------
/// What issuing returns for the outcome of signing: the token, or an
/// internal error where signing failed.
pub open spec fn signing_outcome(token: Option<Seq<char>>) -> Result<Seq<char>, AuthError> {
    match token {
        Some(t) => Ok(t),
        None => Err(AuthError::Internal),
    }
}

/// The access token issued to an account at `now` under the token id `jti`.
pub open spec fn access_token_for(user: UserView, config: &AuthConfig, now: i64, jti: u128) -> Option<
    Seq<char>,
> {
    jwt_encoding(access_claims_for(user, config, now, jti).fields(), config.jwt_secret@)
}

/// The signed part of the refresh token issued to an account at `now` for
/// the record `token_id`.
pub open spec fn refresh_statement_for(
    user_id: u128,
    token_id: u128,
    config: &AuthConfig,
    now: i64,
) -> Option<Seq<char>> {
    jwt_encoding(refresh_claims_for(user_id, token_id, config, now).fields(), config.jwt_secret@)
}

/// What the service makes of the signed part of a refresh token.
pub open spec fn refresh_statement_check(
    config: &AuthConfig,
    statement: Seq<char>,
    now: i64,
    check_expiry: bool,
) -> Result<RefreshTokenClaimsView, AuthError> {
    refresh_validation(
        jwt_decoding(statement, config.jwt_secret@, config.jwt_issuer@, None),
        config.jwt_issuer@,
        now,
        check_expiry,
    )
}

/// What the service makes of an access token.
pub open spec fn access_token_check(config: &AuthConfig, token: Seq<char>, now: i64) -> Result<
    AccessTokenClaimsView,
    AuthError,
> {
    access_validation(
        jwt_decoding(token, config.jwt_secret@, config.jwt_issuer@, Some(config.jwt_audience@)),
        config.jwt_issuer@,
        config.jwt_audience@,
        now,
    )
}

impl AuthService {
    /// The digest under which the secret of a token is stored.
    pub fn hash_token(&self, token: &str) -> (digest: String)
        ensures
            digest@ == token_digest(token@),
    {
        let raw = sha256(token.as_bytes());
        hex_encode(raw.as_slice())
    }

    /// A fresh secret: 32 random bytes as hexadecimal text.
    pub fn generate_random_token(&self) -> (secret: String)
        ensures
            exists|bytes: Seq<u8>| bytes.len() == 32 && secret@ == secret_text(bytes),
    {
        let bytes = random_bytes();
        let secret = base64_url_encode(bytes.as_slice());
        assert(secret@ == secret_text(bytes@));
        secret
    }

    /// Signs an access token for an account under a given token id.
    pub fn sign_access_token(&self, user: &User, now: i64, jti: u128) -> (token: Result<
        String,
        AuthError,
    >)
        ensures
            crate::hasher::text_result(token) == signing_outcome(
                access_token_for(user@, self.config(), now, jti),
            ),
    {
        let config = self.config();
        let claims = AccessTokenClaims {
            sub: user.id,
            email: user.email.clone(),
            name: user.name.clone(),
            role: String::from_str(user.role.as_str()),
            iat: now,
            exp: time_after(now, config.access_token_expiration),
            iss: config.jwt_issuer.clone(),
            aud: config.jwt_audience.clone(),
            jti,
        };
        assert(claims@ == access_claims_for(user@, self.config(), now, jti));
        match jwt_encode(&claims.to_claims(), config.jwt_secret.as_str()) {
            Some(token) => Ok(token),
            None => Err(AuthError::Internal),
        }
    }

    /// Issues an access token for an account under a fresh token id.
    pub fn generate_access_token(&self, user: &User, now: i64) -> (token: Result<String, AuthError>)
        ensures
            exists|jti: u128|
                crate::hasher::text_result(token) == signing_outcome(
                    access_token_for(user@, self.config(), now, jti),
                ),
    {
        let jti = fresh_id();
        let token = self.sign_access_token(user, now, jti);
        assert(crate::hasher::text_result(token) == signing_outcome(
            access_token_for(user@, self.config(), now, jti),
        ));
        token
    }

    /// Signs the statement of a refresh token.
    pub fn sign_refresh_statement(&self, user_id: u128, token_id: u128, now: i64) -> (statement:
        Result<String, AuthError>)
        ensures
            crate::hasher::text_result(statement) == signing_outcome(
                refresh_statement_for(user_id, token_id, self.config(), now),
            ),
    {
        let config = self.config();
        let claims = RefreshTokenClaims {
            sub: user_id,
            tid: token_id,
            iat: now,
            exp: time_after(now, config.refresh_token_expiration),
            iss: config.jwt_issuer.clone(),
        };
        assert(claims@ == refresh_claims_for(user_id, token_id, self.config(), now));
        match jwt_encode(&claims.to_claims(), config.jwt_secret.as_str()) {
            Some(token) => Ok(token),
            None => Err(AuthError::Internal),
        }
    }

    /// Validates an access token: its signature, issuer, audience and
    /// expiry. No record is consulted.
    pub fn validate_access_token(&self, token: &str, now: i64) -> (claims: Result<
        AccessTokenClaims,
        AuthError,
    >)
        ensures
            access_result_view(claims) == access_token_check(self.config(), token@, now),
    {
        let config = self.config();
        let decoded = jwt_decode(
            token,
            config.jwt_secret.as_str(),
            config.jwt_issuer.as_str(),
            Some(config.jwt_audience.as_str()),
        );
        AccessTokenClaims::check(
            decoded,
            config.jwt_issuer.as_str(),
            config.jwt_audience.as_str(),
            now,
        )
    }

    /// Validates the signed part of a refresh token: its signature and
    /// issuer, and its expiry where `check_expiry` is set.
    pub fn read_refresh_statement(&self, statement: &str, now: i64, check_expiry: bool) -> (claims:
        Result<RefreshTokenClaims, AuthError>)
        ensures
            refresh_result_view(claims) == refresh_statement_check(
                self.config(),
                statement@,
                now,
                check_expiry,
            ),
    {
        let config = self.config();
        let decoded = jwt_decode(
            statement,
            config.jwt_secret.as_str(),
            config.jwt_issuer.as_str(),
            None,
        );
        RefreshTokenClaims::check(decoded, config.jwt_issuer.as_str(), now, check_expiry)
    }

    /// Validates the signed part of a refresh token: its signature, issuer
    /// and expiry.
    pub fn decode_refresh_token(&self, statement: &str, now: i64) -> (claims: Result<
        RefreshTokenClaims,
        AuthError,
    >)
        ensures
            refresh_result_view(claims) == refresh_statement_check(
                self.config(),
                statement@,
                now,
                true,
            ),
    {
        self.read_refresh_statement(statement, now, true)
    }
}

} // verus!
