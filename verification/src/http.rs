//! What the request layer decides before and after the service is called:
//! who the caller is, what the caller may do, and where the request came
//! from.

use crate::encoding::same_text;
use crate::models::text_view;
use crate::service::AuthService;
use crate::token::{access_token_check, AccessTokenClaims, AccessTokenClaimsView};
use vstd::prelude::*;
use vstd::string::StrSliceExecFns;
use vstd::string::StringExecFns;

verus! {

/// Why a request is turned away before it reaches an operation.
#[derive(Debug, Clone, Copy, PartialEq, Eq, Structural)]
pub enum AuthRejection {
    /// No authorization header.
    AuthenticationRequired,
    /// An authorization header that is no bearer token.
    InvalidHeaderFormat,
    /// A bearer token that does not validate.
    InvalidToken,
    /// A caller who is no administrator.
    AdminRequired,
    /// A caller with none of the roles asked for.
    InsufficientPermissions,
}

impl AuthRejection {
    pub open spec fn spec_status_code(self) -> u16 {
        match self {
            AuthRejection::AuthenticationRequired => 401,
            AuthRejection::InvalidHeaderFormat => 401,
            AuthRejection::InvalidToken => 401,
            AuthRejection::AdminRequired => 403,
            AuthRejection::InsufficientPermissions => 403,
        }
    }

    pub open spec fn spec_error_code(self) -> Seq<char> {
        match self {
            AuthRejection::AuthenticationRequired => "unauthorized"@,
            AuthRejection::InvalidHeaderFormat => "unauthorized"@,
            AuthRejection::InvalidToken => "invalid_token"@,
            AuthRejection::AdminRequired => "forbidden"@,
            AuthRejection::InsufficientPermissions => "forbidden"@,
        }
    }

    pub open spec fn spec_message(self) -> Seq<char> {
        match self {
            AuthRejection::AuthenticationRequired => "Authentication required"@,
            AuthRejection::InvalidHeaderFormat => "Invalid authorization header format"@,
            AuthRejection::InvalidToken => "Invalid or expired token"@,
            AuthRejection::AdminRequired => "Admin access required"@,
            AuthRejection::InsufficientPermissions => "Insufficient permissions"@,
        }
    }

    pub fn status_code(self) -> (code: u16)
        ensures
            code == self.spec_status_code(),
    {
        match self {
            AuthRejection::AuthenticationRequired
            | AuthRejection::InvalidHeaderFormat
            | AuthRejection::InvalidToken => 401,
            AuthRejection::AdminRequired | AuthRejection::InsufficientPermissions => 403,
        }
    }

    pub fn error_code(self) -> (code: &'static str)
        ensures
            code@ == self.spec_error_code(),
    {
        match self {
            AuthRejection::AuthenticationRequired | AuthRejection::InvalidHeaderFormat => "unauthorized",
            AuthRejection::InvalidToken => "invalid_token",
            AuthRejection::AdminRequired | AuthRejection::InsufficientPermissions => "forbidden",
        }
    }

    pub fn message(self) -> (text: &'static str)
        ensures
            text@ == self.spec_message(),
    {
        match self {
            AuthRejection::AuthenticationRequired => "Authentication required",
            AuthRejection::InvalidHeaderFormat => "Invalid authorization header format",
            AuthRejection::InvalidToken => "Invalid or expired token",
            AuthRejection::AdminRequired => "Admin access required",
            AuthRejection::InsufficientPermissions => "Insufficient permissions",
        }
    }
}

/// The scheme that precedes a bearer token in an authorization header.
pub open spec fn bearer_prefix() -> Seq<char> {
    seq!['B', 'e', 'a', 'r', 'e', 'r', ' ']
}

/// The token of an authorization header of the form `Bearer <token>`.
pub open spec fn bearer_token_of(header: Seq<char>) -> Option<Seq<char>> {
    if header.len() >= 7 && header.subrange(0, 7) == bearer_prefix() {
        Some(header.subrange(7, header.len() as int))
    } else {
        None
    }
}

/// Takes the token out of an authorization header.
pub fn bearer_token(header: &str) -> (token: Option<String>)
    ensures
        text_view(token) == bearer_token_of(header@),
{
    let total = header.unicode_len();
    if total < 7 {
        return None;
    }
    proof {
        reveal_strlit("Bearer ");
        assert("Bearer "@ =~= bearer_prefix());
    }
    if !same_text(header.substring_char(0, 7), "Bearer ") {
        return None;
    }
    Some(String::from_str(header.substring_char(7, total)))
}

/// Who the caller of a request is: the claims of the bearer token in its
/// authorization header, provided there is one and it validates.
pub open spec fn authentication(
    config: &crate::config::AuthConfig,
    authorization: Option<Seq<char>>,
    now: i64,
) -> Result<AccessTokenClaimsView, AuthRejection> {
    match authorization {
        None => Err(AuthRejection::AuthenticationRequired),
        Some(header) => match bearer_token_of(header) {
            None => Err(AuthRejection::InvalidHeaderFormat),
            Some(token) => match access_token_check(config, token, now) {
                Ok(claims) => Ok(claims),
                Err(_) => Err(AuthRejection::InvalidToken),
            },
        },
    }
}

pub open spec fn authentication_view(result: Result<AccessTokenClaims, AuthRejection>) -> Result<
    AccessTokenClaimsView,
    AuthRejection,
> {
    match result {
        Ok(claims) => Ok(claims@),
        Err(e) => Err(e),
    }
}

pub open spec fn header_view(header: Option<&str>) -> Option<Seq<char>> {
    match header {
        Some(h) => Some(h@),
        None => None,
    }
}

/// Whether a role is among those allowed.
pub open spec fn role_allowed(role: Seq<char>, allowed: Seq<String>) -> bool {
    exists|i: int| 0 <= i < allowed.len() && (#[trigger] allowed[i])@ == role
}

/// Lets only an administrator pass.
pub fn require_admin(claims: &AccessTokenClaims) -> (passed: Result<(), AuthRejection>)
    ensures
        passed == if claims.role@ == "admin"@ {
            Ok::<(), AuthRejection>(())
        } else {
            Err(AuthRejection::AdminRequired)
        },
{
    if same_text(claims.role.as_str(), "admin") {
        Ok(())
    } else {
        Err(AuthRejection::AdminRequired)
    }
}

/// Lets a caller pass whose role is among those allowed.
pub fn require_role(claims: &AccessTokenClaims, allowed: &Vec<String>) -> (passed: Result<
    (),
    AuthRejection,
>)
    ensures
        passed == if role_allowed(claims.role@, allowed@) {
            Ok::<(), AuthRejection>(())
        } else {
            Err(AuthRejection::InsufficientPermissions)
        },
{
    let mut k: usize = 0;
    while k < allowed.len()
        invariant
            k <= allowed.len(),
            forall|j: int| 0 <= j < k ==> (#[trigger] allowed@[j])@ != claims.role@,
        decreases allowed.len() - k,
    {
        if allowed[k] == claims.role {
            return Ok(());
        }
        k = k + 1;
    }
    Err(AuthRejection::InsufficientPermissions)
}

impl AuthService {
    /// Finds out who the caller of a request is from its authorization
    /// header.
    pub fn authenticate(&self, authorization: Option<&str>, now: i64) -> (caller: Result<
        AccessTokenClaims,
        AuthRejection,
    >)
        ensures
            authentication_view(caller) == authentication(
                self.config(),
                header_view(authorization),
                now,
            ),
    {
        let header = match authorization {
            Some(header) => header,
            None => return Err(AuthRejection::AuthenticationRequired),
        };
        let token = match bearer_token(header) {
            Some(token) => token,
            None => return Err(AuthRejection::InvalidHeaderFormat),
        };
        match self.validate_access_token(token.as_str(), now) {
            Ok(claims) => Ok(claims),
            Err(_) => Err(AuthRejection::InvalidToken),
        }
    }

    /// The caller of a request, if it names one; a request without a valid
    /// token has none.
    pub fn optional_auth(&self, authorization: Option<&str>, now: i64) -> (caller: Option<
        AccessTokenClaims,
    >)
        ensures
            match authentication(self.config(), header_view(authorization), now) {
                Ok(claims) => caller matches Some(found) && found@ == claims,
                Err(_) => caller is None,
            },
    {
        match self.authenticate(authorization, now) {
            Ok(claims) => Some(claims),
            Err(_) => None,
        }
    }
}

// ---------------------------------------------------------------------------
// Where a request came from
// ---------------------------------------------------------------------------
/// A text without the white space at its ends.
pub uninterp spec fn trimmed_of(text: Seq<char>) -> Seq<char>;

/// Calls `str::trim`.
#[verifier::external_body]
pub(crate) fn trim(text: &str) -> (trimmed: String)
    ensures
        trimmed@ == trimmed_of(text@),
{
    text.trim().to_string()
}

/// Holds of the position of the first comma of a text.
pub open spec fn is_first_comma(text: Seq<char>, at: int) -> bool {
    &&& 0 <= at < text.len()
    &&& text[at] == ','
    &&& forall|j: int| 0 <= j < at ==> text[j] != ','
}

/// The part of a text before its first comma; the whole text where it has
/// none.
pub open spec fn first_entry(text: Seq<char>) -> Seq<char> {
    if exists|at: int| is_first_comma(text, at) {
        text.subrange(0, choose|at: int| is_first_comma(text, at))
    } else {
        text
    }
}

/// Takes the part of a text before its first comma.
pub fn take_first_entry(text: &str) -> (entry: String)
    ensures
        entry@ == first_entry(text@),
{
    let total: usize = text.unicode_len();
    let mut at: Option<usize> = None;
    let mut n: usize = 0;
    for c in it: text.chars()
        invariant
            it.seq() == text@,
            total == text@.len(),
            n == it.index(),
            match at {
                Some(i) => i < n && is_first_comma(text@, i as int),
                None => forall|j: int| 0 <= j < n ==> text@[j] != ',',
            },
    {
        if c == ',' && at.is_none() {
            at = Some(n);
        }
        n = n + 1;
    }
    match at {
        Some(i) => {
            proof {
                let chosen = choose|k: int| is_first_comma(text@, k);
                assert(is_first_comma(text@, i as int));
                assert(chosen == i);
            }
            String::from_str(text.substring_char(0, i))
        },
        None => {
            assert(forall|k: int| !is_first_comma(text@, k));
            String::from_str(text)
        },
    }
}

/// Where a request came from.
#[derive(Debug)]
pub struct ClientInfo {
    pub ip: Option<String>,
    pub user_agent: Option<String>,
}

/// The address of the client: the first entry of the forwarding header,
/// trimmed, or else the address that the proxy reports.
pub open spec fn client_ip(forwarded_for: Option<Seq<char>>, real_ip: Option<Seq<char>>) -> Option<
    Seq<char>,
> {
    match forwarded_for {
        Some(list) => Some(trimmed_of(first_entry(list))),
        None => real_ip,
    }
}

impl ClientInfo {
    /// Reads the origin of a request from the values of its headers
    /// `X-Forwarded-For`, `X-Real-IP` and `User-Agent`.
    pub fn from_headers(
        forwarded_for: Option<&str>,
        real_ip: Option<&str>,
        user_agent: Option<&str>,
    ) -> (info: ClientInfo)
        ensures
            text_view(info.ip) == client_ip(header_view(forwarded_for), header_view(real_ip)),
            text_view(info.user_agent) == header_view(user_agent),
    {
        let ip = match forwarded_for {
            Some(list) => {
                let entry = take_first_entry(list);
                Some(trim(entry.as_str()))
            },
            None => match real_ip {
                Some(address) => Some(String::from_str(address)),
                None => None,
            },
        };
        let user_agent = match user_agent {
            Some(agent) => Some(String::from_str(agent)),
            None => None,
        };
        ClientInfo { ip, user_agent }
    }
}

} // verus!
