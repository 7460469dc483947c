//! Development authentication of the scheduler node's management API: one
//! admin account, a fixed bearer token, and the checks made on each request.
use vstd::prelude::*;
use vstd::utf8::{encode_utf8, encode_utf8_decode_utf8};
use crate::management_api::LoginRequest;

verus! {

/// Admin user name used when none is configured.
pub const DEFAULT_ADMIN_USERNAME: &'static str = "scheduler_init";

/// Admin password used when none is configured.
pub const DEFAULT_ADMIN_PASSWORD: &'static str = "Scheduler@2026!";

/// Admin bearer token used when none is configured.
pub const DEFAULT_ADMIN_TOKEN: &'static str = "scheduler-init-token";

/// Role granted to the development admin.
pub const ADMIN_ROLE: &'static str = "admin";

/// The development admin account.
#[derive(Debug)]
pub struct DevAdminAccount {
    /// Login name.
    pub username: String,
    /// Login password.
    pub password: String,
    /// Bearer token accepted for the admin.
    pub token: String,
}

/// Why a request is not authenticated.
#[derive(Clone, Copy, PartialEq, Eq, Structural, Debug)]
pub enum AuthFailure {
    /// No `Authorization` header.
    MissingBearerToken,
    /// The header holds a byte that is not visible ASCII.
    InvalidAuthorizationHeader,
    /// The header does not start with `Bearer `.
    WrongScheme,
    /// The bearer token is not the admin token.
    InvalidBearerToken,
    /// Login name or password does not match the admin account.
    InvalidCredentials,
}

/// Session returned by a successful login.
#[derive(Debug)]
pub struct AdminSession {
    /// Bearer token.
    pub token: String,
    /// User name.
    pub username: String,
    /// Granted roles.
    pub roles: Vec<String>,
}

/// The authenticated principal.
#[derive(Debug)]
pub struct AdminPrincipal {
    /// User name.
    pub username: String,
    /// Granted roles.
    pub roles: Vec<String>,
}

/// A configured value, or the default when none is configured.
pub open spec fn setting_or(value: Option<String>, default: Seq<char>) -> Seq<char> {
    match value {
        Some(v) => v@,
        None => default,
    }
}

/// A byte allowed in an HTTP header value read as text: visible ASCII or a tab.
pub open spec fn is_visible_ascii(b: u8) -> bool {
    (32 <= b && b < 127) || b == 9
}

/// The bytes of `Bearer `.
pub open spec fn bearer_prefix() -> Seq<u8> {
    seq![66u8, 101u8, 97u8, 114u8, 101u8, 114u8, 32u8]
}

/// Outcome of checking an `Authorization` header against the admin token.
pub open spec fn bearer_outcome(header: Option<Seq<u8>>, token: Seq<char>) -> Result<(), AuthFailure> {
    match header {
        None => Err(AuthFailure::MissingBearerToken),
        Some(b) => if !(forall|i: int| 0 <= i < b.len() ==> is_visible_ascii(#[trigger] b[i])) {
            Err(AuthFailure::InvalidAuthorizationHeader)
        } else if !(b.len() >= 7 && b.take(7) == bearer_prefix()) {
            Err(AuthFailure::WrongScheme)
        } else if b.skip(7) == encode_utf8(token) {
            Ok(())
        } else {
            Err(AuthFailure::InvalidBearerToken)
        },
    }
}

impl DevAdminAccount {
    /// The admin account from configured values, each falling back to its default.
    pub fn from_settings(username: Option<String>, password: Option<String>, token: Option<String>) -> (account:
        Self)
        ensures
            account.username@ == setting_or(username, DEFAULT_ADMIN_USERNAME@),
            account.password@ == setting_or(password, DEFAULT_ADMIN_PASSWORD@),
            account.token@ == setting_or(token, DEFAULT_ADMIN_TOKEN@),
    {
        DevAdminAccount {
            username: match username {
                Some(v) => v,
                None => String::from_str(DEFAULT_ADMIN_USERNAME),
            },
            password: match password {
                Some(v) => v,
                None => String::from_str(DEFAULT_ADMIN_PASSWORD),
            },
            token: match token {
                Some(v) => v,
                None => String::from_str(DEFAULT_ADMIN_TOKEN),
            },
        }
    }
}

impl AuthFailure {
    /// Human-readable reason answered with the rejection.
    pub fn message(&self) -> (m: &'static str)
        ensures
            m@ == failure_message(*self),
    {
        match self {
            AuthFailure::MissingBearerToken => "missing bearer token",
            AuthFailure::InvalidAuthorizationHeader => "invalid authorization header",
            AuthFailure::WrongScheme => "authorization scheme must be Bearer",
            AuthFailure::InvalidBearerToken => "invalid bearer token",
            AuthFailure::InvalidCredentials => "invalid username or password",
        }
    }
}

/// Reason answered with a rejection.
pub open spec fn failure_message(f: AuthFailure) -> Seq<char> {
    match f {
        AuthFailure::MissingBearerToken => "missing bearer token"@,
        AuthFailure::InvalidAuthorizationHeader => "invalid authorization header"@,
        AuthFailure::WrongScheme => "authorization scheme must be Bearer"@,
        AuthFailure::InvalidBearerToken => "invalid bearer token"@,
        AuthFailure::InvalidCredentials => "invalid username or password"@,
    }
}

/// Checks the raw `Authorization` header of a request against the admin token.
pub fn require_admin(authorization: Option<&[u8]>, admin: &DevAdminAccount) -> (res: Result<(), AuthFailure>)
    ensures
        res == bearer_outcome(
            match authorization {
                Some(b) => Some(b@),
                None => None,
            },
            admin.token@,
        ),
{
    let b = match authorization {
        None => {
            return Err(AuthFailure::MissingBearerToken);
        },
        Some(b) => b,
    };
    let mut i: usize = 0;
    while i < b.len()
        invariant
            authorization == Some(b),
            i <= b@.len(),
            forall|k: int| 0 <= k < i ==> is_visible_ascii(#[trigger] b@[k]),
        decreases b@.len() - i,
    {
        let c = b[i];
        if !((32 <= c && c < 127) || c == 9) {
            assert(!is_visible_ascii(b@[i as int]));
            return Err(AuthFailure::InvalidAuthorizationHeader);
        }
        i = i + 1;
    }
    let prefix: [u8; 7] = [66, 101, 97, 114, 101, 114, 32];
    if b.len() < 7 {
        return Err(AuthFailure::WrongScheme);
    }
    let mut j: usize = 0;
    while j < 7
        invariant
            authorization == Some(b),
            forall|k: int| 0 <= k < b@.len() ==> is_visible_ascii(#[trigger] b@[k]),
            j <= 7,
            b@.len() >= 7,
            prefix@ == bearer_prefix(),
            forall|k: int| 0 <= k < j ==> b@[k] == bearer_prefix()[k],
        decreases 7 - j,
    {
        if b[j] != prefix[j] {
            assert(b@.take(7)[j as int] != bearer_prefix()[j as int]);
            return Err(AuthFailure::WrongScheme);
        }
        j = j + 1;
    }
    assert(b@.take(7) =~= bearer_prefix());
    let expected = admin.token.as_str().as_bytes();
    let rest_len = b.len() - 7;
    if rest_len != expected.len() {
        assert(b@.skip(7).len() != expected@.len());
        return Err(AuthFailure::InvalidBearerToken);
    }
    let mut k: usize = 0;
    while k < rest_len
        invariant
            authorization == Some(b),
            forall|k: int| 0 <= k < b@.len() ==> is_visible_ascii(#[trigger] b@[k]),
            b@.take(7) == bearer_prefix(),
            k <= rest_len,
            rest_len + 7 == b@.len(),
            b.len() == b@.len(),
            rest_len == expected@.len(),
            expected@ == encode_utf8(admin.token@),
            forall|t: int| 0 <= t < k ==> b@[t + 7] == expected@[t],
        decreases rest_len - k,
    {
        if b[k + 7] != expected[k] {
            assert(b@.skip(7)[k as int] != expected@[k as int]);
            return Err(AuthFailure::InvalidBearerToken);
        }
        k = k + 1;
    }
    assert(b@.skip(7) =~= expected@);
    Ok(())
}

/// The admin role list.
fn admin_roles() -> (roles: Vec<String>)
    ensures
        roles@.len() == 1,
        roles@[0]@ == ADMIN_ROLE@,
{
    let mut roles: Vec<String> = Vec::new();
    roles.push(String::from_str(ADMIN_ROLE));
    roles
}

/// Logs in with the development admin account.
pub fn login(request: &LoginRequest, admin: &DevAdminAccount) -> (res: Result<AdminSession, AuthFailure>)
    ensures
        match res {
            Ok(session) => {
                &&& request.username@ == admin.username@
                &&& request.password@ == admin.password@
                &&& session.token@ == admin.token@
                &&& session.username@ == admin.username@
                &&& session.roles@.len() == 1
                &&& session.roles@[0]@ == ADMIN_ROLE@
            },
            Err(f) => f == AuthFailure::InvalidCredentials && !(request.username@ == admin.username@
                && request.password@ == admin.password@),
        },
{
    if request.username == admin.username && request.password == admin.password {
        Ok(
            AdminSession {
                token: admin.token.clone(),
                username: admin.username.clone(),
                roles: admin_roles(),
            },
        )
    } else {
        Err(AuthFailure::InvalidCredentials)
    }
}

/// The authenticated principal of a request.
pub fn current_principal(authorization: Option<&[u8]>, admin: &DevAdminAccount) -> (res: Result<
    AdminPrincipal,
    AuthFailure,
>)
    ensures
        match res {
            Ok(p) => {
                &&& bearer_outcome(
                    match authorization {
                        Some(b) => Some(b@),
                        None => None,
                    },
                    admin.token@,
                ) == Ok::<(), AuthFailure>(())
                &&& p.username@ == admin.username@
                &&& p.roles@.len() == 1
                &&& p.roles@[0]@ == ADMIN_ROLE@
            },
            Err(f) => bearer_outcome(
                match authorization {
                    Some(b) => Some(b@),
                    None => None,
                },
                admin.token@,
            ) == Err::<(), AuthFailure>(f),
        },
{
    match require_admin(authorization, admin) {
        Ok(()) => Ok(AdminPrincipal { username: admin.username.clone(), roles: admin_roles() }),
        Err(f) => Err(f),
    }
}

/// Bearer round trip: a request whose `Authorization` header is `Bearer `
/// followed by a token of visible ASCII is authenticated exactly when that token
/// is the admin token, the one a successful login hands out, and is otherwise
/// refused as an invalid bearer token.
pub proof fn lemma_bearer_round_trip(admin_token: Seq<char>, presented: Seq<char>)
    requires
        forall|i: int|
            0 <= i < encode_utf8(presented).len() ==> is_visible_ascii(#[trigger] encode_utf8(presented)[i]),
    ensures
        bearer_outcome(Some(bearer_prefix() + encode_utf8(presented)), admin_token) == (if presented
            == admin_token {
            Ok::<(), AuthFailure>(())
        } else {
            Err::<(), AuthFailure>(AuthFailure::InvalidBearerToken)
        }),
{
    let p = encode_utf8(presented);
    let h = bearer_prefix() + p;
    assert(h.take(7) =~= bearer_prefix());
    assert(h.skip(7) =~= p);
    assert forall|i: int| 0 <= i < h.len() implies is_visible_ascii(#[trigger] h[i]) by {
        if i >= 7 {
            assert(h[i] == p[i - 7]);
        }
    }
    if p == encode_utf8(admin_token) {
        encode_utf8_decode_utf8(presented);
        encode_utf8_decode_utf8(admin_token);
    }
}

/// Why a request is refused: without an `Authorization` header the bearer
/// token is missing; a header holding a byte outside visible ASCII and tab is
/// invalid; a readable header that does not start with `Bearer ` has the wrong
/// scheme.
pub proof fn lemma_bearer_refusals(header: Seq<u8>, token: Seq<char>)
    ensures
        bearer_outcome(None, token) == Err::<(), AuthFailure>(AuthFailure::MissingBearerToken),
        (exists|i: int| 0 <= i < header.len() && !((32 <= #[trigger] header[i] && header[i] <= 126) || header[i] == 9))
            ==> bearer_outcome(Some(header), token) == Err::<(), AuthFailure>(
            AuthFailure::InvalidAuthorizationHeader,
        ),
        (forall|i: int| 0 <= i < header.len() ==> (32 <= #[trigger] header[i] && header[i] <= 126) || header[i] == 9)
            && !(header.len() >= 7 && header[0] == 66 && header[1] == 101 && header[2] == 97 && header[3]
            == 114 && header[4] == 101 && header[5] == 114 && header[6] == 32) ==> bearer_outcome(
            Some(header),
            token,
        ) == Err::<(), AuthFailure>(AuthFailure::WrongScheme),
{
    if header.len() >= 7 && header.take(7) == bearer_prefix() {
        assert(header[0] == header.take(7)[0]);
        assert(header[1] == header.take(7)[1]);
        assert(header[2] == header.take(7)[2]);
        assert(header[3] == header.take(7)[3]);
        assert(header[4] == header.take(7)[4]);
        assert(header[5] == header.take(7)[5]);
        assert(header[6] == header.take(7)[6]);
    }
    if header.len() >= 7 && header[0] == 66 && header[1] == 101 && header[2] == 97 && header[3] == 114
        && header[4] == 101 && header[5] == 114 && header[6] == 32 {
        assert(header.take(7) =~= bearer_prefix());
    }
}

} // verus!
