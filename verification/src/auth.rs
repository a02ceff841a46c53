use argon2::password_hash::rand_core::OsRng;
use argon2::password_hash::{PasswordHash, SaltString};
use argon2::{Argon2, PasswordHasher, PasswordVerifier};
use vstd::prelude::*;
use vstd::utf8::encode_utf8;

use crate::text::{str_eq, strip_prefix};

verus! {

/// Whether `PasswordHash::new` of the argon2 crate parses this PHC string.
pub uninterp spec fn phc_parses(phc: Seq<char>) -> bool;

/// Whether `Argon2::default().verify_password` accepts the password bytes
/// against this (parsed) PHC string.
pub uninterp spec fn argon2_accepts(password: Seq<u8>, phc: Seq<char>) -> bool;

/// Outcome of checking a password against a stored PHC string.
#[derive(Debug, Clone, Copy, PartialEq, Eq, Structural)]
pub enum PasswordCheck {
    /// The stored string is not a PHC string.
    Malformed,
    /// The password does not match.
    Mismatch,
    /// The password matches.
    Match,
}

/// Parses `phc` with `argon2::password_hash::PasswordHash::new`, then, if it
/// parsed, checks `password` against it with
/// `Argon2::default().verify_password`. The contract claims only that the
/// outcome is the one these two calls decide, named by `phc_parses` and
/// `argon2_accepts`.
#[verifier::external_body]
fn check_password(password: &[u8], phc: &str) -> (r: PasswordCheck)
    ensures
        r == (if !phc_parses(phc@) {
            PasswordCheck::Malformed
        } else if argon2_accepts(password@, phc@) {
            PasswordCheck::Match
        } else {
            PasswordCheck::Mismatch
        }),
{
    match PasswordHash::new(phc) {
        Err(_) => PasswordCheck::Malformed,
        Ok(parsed) => match Argon2::default().verify_password(password, &parsed) {
            Ok(()) => PasswordCheck::Match,
            Err(_) => PasswordCheck::Mismatch,
        },
    }
}

/// Hashes `password` with `Argon2::default().hash_password` under a fresh
/// salt from `SaltString::generate(&mut OsRng)`, rendered as its PHC string.
/// The contract claims what the argon2 sources and documentation show: with
/// a generated salt (16 bytes, above argon2's minimum of 8) hashing fails
/// only for a password longer than `argon2::MAX_PWD_LEN` (0xFFFF_FFFF bytes),
/// and a produced hash parses again with `PasswordHash::new` and verifies
/// the same password. The hash itself depends on the random salt and is
/// not named.
#[verifier::external_body]
fn hash_with_fresh_salt(password: &[u8]) -> (r: Option<String>)
    ensures
        password@.len() <= 0xFFFF_FFFF ==> r is Some,
        r matches Some(h) ==> phc_parses(h@) && argon2_accepts(password@, h@),
{
    let salt = SaltString::generate(&mut OsRng);
    Argon2::default().hash_password(password, &salt).ok().map(|h| h.to_string())
}

/// Role of an account.
#[derive(Debug, Clone, Copy, PartialEq, Eq, Structural)]
pub enum Role {
    Admin,
    User,
}

/// Errors of the authentication endpoints and guards, by HTTP status.
#[derive(Debug, Clone, Copy, PartialEq, Eq, Structural)]
pub enum AuthError {
    Unauthorized,
    Forbidden,
    InternalServerError,
}

impl AuthError {
    pub open spec fn spec_status(self) -> u16 {
        match self {
            AuthError::Unauthorized => 401,
            AuthError::Forbidden => 403,
            AuthError::InternalServerError => 500,
        }
    }

    /// The HTTP status code of the error.
    pub fn status(&self) -> (code: u16)
        ensures
            code == self.spec_status(),
    {
        match self {
            AuthError::Unauthorized => 401,
            AuthError::Forbidden => 403,
            AuthError::InternalServerError => 500,
        }
    }
}

/// Body of a register or login request.
#[derive(Debug)]
pub struct AuthPayload {
    pub email: String,
    pub password: String,
    pub role: Option<String>,
}

/// Content of an issued token.
#[derive(Debug, Clone, Copy, PartialEq, Eq, Structural)]
pub struct Claims {
    pub user_id: i32,
    pub exp: usize,
    pub role: Role,
}

/// Reply of the register and login endpoints.
#[derive(Debug)]
pub struct AuthResponse {
    pub token: String,
}

/// The account row that login reads: PHC string, id and stored role.
#[derive(Debug)]
pub struct StoredAccount {
    pub password_hash: String,
    pub id: i32,
    pub role: String,
}

/// The account row that registration writes.
#[derive(Debug)]
pub struct NewAccount {
    pub email: String,
    pub password_hash: String,
    pub role: String,
}

/// A request that carried a valid token.
#[derive(Debug, Clone, Copy, PartialEq, Eq, Structural)]
pub struct AuthenticatedUser {
    pub user_id: i32,
    pub role: Role,
}

/// A request that carried a valid token of an administrator.
#[derive(Debug, Clone, Copy, PartialEq, Eq, Structural)]
pub struct AdminUser;

/// Tokens stay valid for this many seconds.
pub const TOKEN_LIFETIME_SECS: u64 = 3600;

/// The role that a stored role name stands for: `"admin"` is an
/// administrator, every other name an ordinary user.
pub open spec fn role_named(name: Seq<char>) -> Role {
    if name == "admin"@ {
        Role::Admin
    } else {
        Role::User
    }
}

/// The role name that registration stores: the requested one, else `"user"`.
pub open spec fn requested_role_name(role: Option<String>) -> Seq<char> {
    match role {
        Some(r) => r@,
        None => "user"@,
    }
}

/// What login answers for a fetched account (or none), the password bytes
/// and the current time in seconds.
pub open spec fn login_outcome(account: Option<(Seq<char>, i32, Seq<char>)>, password: Seq<u8>, now_secs: u64) -> Result<Claims, AuthError> {
    match account {
        None => Err(AuthError::Unauthorized),
        Some((phc, id, role)) => if !phc_parses(phc) {
            Err(AuthError::InternalServerError)
        } else if !argon2_accepts(password, phc) {
            Err(AuthError::Unauthorized)
        } else {
            Ok(Claims { user_id: id, exp: (now_secs + TOKEN_LIFETIME_SECS) as usize, role: role_named(role) })
        },
    }
}

pub open spec fn account_view(account: Option<&StoredAccount>) -> Option<(Seq<char>, i32, Seq<char>)> {
    match account {
        Some(a) => Some((a.password_hash@, a.id, a.role@)),
        None => None,
    }
}

/// The role a stored role name stands for.
pub fn role_from_name(name: &str) -> (r: Role)
    ensures
        r == role_named(name@),
{
    if str_eq(name, "admin") {
        Role::Admin
    } else {
        proof {
            reveal_strlit("admin");
        }
        Role::User
    }
}

/// The role name that registration stores.
pub fn requested_role(role: &Option<String>) -> (r: &str)
    ensures
        r@ == requested_role_name(*role),
{
    match role {
        Some(r) => r.as_str(),
        None => "user",
    }
}

/// Expiry time of a token issued at `now_secs`.
pub fn token_expiry(now_secs: u64) -> (exp: usize)
    requires
        now_secs + TOKEN_LIFETIME_SECS <= usize::MAX,
    ensures
        exp == now_secs + TOKEN_LIFETIME_SECS,
{
    now_secs as usize + TOKEN_LIFETIME_SECS as usize
}

/// Login once the password check is known: the claims of the token to
/// issue, or the error to answer.
pub fn login_after_check(account: Option<&StoredAccount>, check: PasswordCheck, now_secs: u64) -> (r: Result<Claims, AuthError>)
    requires
        now_secs + TOKEN_LIFETIME_SECS <= usize::MAX,
    ensures
        r == match account {
            None => Err(AuthError::Unauthorized),
            Some(a) => match check {
                PasswordCheck::Malformed => Err(AuthError::InternalServerError),
                PasswordCheck::Mismatch => Err(AuthError::Unauthorized),
                PasswordCheck::Match => Ok(Claims {
                    user_id: a.id,
                    exp: (now_secs + TOKEN_LIFETIME_SECS) as usize,
                    role: role_named(a.role@),
                }),
            },
        },
{
    match account {
        None => Err(AuthError::Unauthorized),
        Some(a) => match check {
            PasswordCheck::Malformed => Err(AuthError::InternalServerError),
            PasswordCheck::Mismatch => Err(AuthError::Unauthorized),
            PasswordCheck::Match => Ok(Claims {
                user_id: a.id,
                exp: token_expiry(now_secs),
                role: role_from_name(a.role.as_str()),
            }),
        },
    }
}

/// Login: checks `password` against the fetched account (none when the
/// e-mail was not found) and gives the claims of the token to issue.
pub fn login_claims(account: Option<&StoredAccount>, password: &str, now_secs: u64) -> (r: Result<Claims, AuthError>)
    requires
        now_secs + TOKEN_LIFETIME_SECS <= usize::MAX,
    ensures
        r == login_outcome(account_view(account), encode_utf8(password@), now_secs),
{
    match account {
        None => Err(AuthError::Unauthorized),
        Some(a) => {
            let check = check_password(password.as_bytes(), a.password_hash.as_str());
            login_after_check(account, check, now_secs)
        },
    }
}

/// Registration once the password was hashed (none when hashing failed).
pub fn registration_from_hash(payload: &AuthPayload, hashed: Option<String>) -> (r: Result<NewAccount, AuthError>)
    ensures
        match hashed {
            None => r == Err::<NewAccount, AuthError>(AuthError::InternalServerError),
            Some(h) => r matches Ok(a) && a.email@ == payload.email@ && a.password_hash@ == h@
                && a.role@ == requested_role_name(payload.role),
        },
{
    match hashed {
        None => Err(AuthError::InternalServerError),
        Some(h) => {
            let role = requested_role(&payload.role);
            Ok(NewAccount { email: payload.email.clone(), password_hash: h, role: role.to_owned() })
        },
    }
}

/// Registration: hashes the password with a fresh random salt and gives the
/// row to store. It succeeds for every password argon2 accepts, that is of
/// at most 0xFFFF_FFFF bytes.
pub fn register_account(payload: &AuthPayload) -> (r: Result<NewAccount, AuthError>)
    ensures
        encode_utf8(payload.password@).len() <= 0xFFFF_FFFF ==> r is Ok,
        r is Err ==> r == Err::<NewAccount, AuthError>(AuthError::InternalServerError),
        r matches Ok(a) ==> {
            &&& a.email@ == payload.email@
            &&& a.role@ == requested_role_name(payload.role)
            &&& phc_parses(a.password_hash@)
            &&& argon2_accepts(encode_utf8(payload.password@), a.password_hash@)
        },
{
    let hashed = hash_with_fresh_salt(payload.password.as_str().as_bytes());
    registration_from_hash(payload, hashed)
}

impl AuthResponse {
    /// Reply to a successful registration.
    pub fn account_created() -> (r: AuthResponse)
        ensures
            r.token@ == "Account created"@,
    {
        AuthResponse { token: String::from_str("Account created") }
    }

    /// Reply to a successful login.
    pub fn with_token(token: String) -> (r: AuthResponse)
        ensures
            r.token@ == token@,
    {
        AuthResponse { token }
    }
}

/// The token of an `Authorization` header of the form `Bearer <token>`.
pub fn bearer_token(header: Option<&str>) -> (r: Option<&str>)
    ensures
        match header {
            None => r is None,
            Some(h) => match r {
                Some(t) => "Bearer "@ + t@ == h@,
                None => !(7 <= h@.len() && h@.subrange(0, 7) == "Bearer "@),
            },
        },
{
    proof {
        reveal_strlit("Bearer ");
    }
    match header {
        None => None,
        Some(h) => strip_prefix(h, "Bearer "),
    }
}

/// What the guard of authenticated routes decides.
pub open spec fn guard_user(token_present: bool, decoded: Option<Claims>) -> Result<AuthenticatedUser, AuthError> {
    match (token_present, decoded) {
        (true, Some(c)) => Ok(AuthenticatedUser { user_id: c.user_id, role: c.role }),
        _ => Err(AuthError::Unauthorized),
    }
}

/// What the guard of administrator routes decides.
pub open spec fn guard_admin(user: Result<AuthenticatedUser, AuthError>) -> Result<AdminUser, AuthError> {
    match user {
        Ok(u) => if u.role == Role::Admin {
            Ok(AdminUser)
        } else {
            Err(AuthError::Forbidden)
        },
        Err(_) => Err(AuthError::Forbidden),
    }
}

/// The guard of authenticated routes, given what decoding the token gave:
/// no token, a token that did not decode, or its claims.
pub fn authenticate(token_present: bool, decoded: Option<Claims>) -> (r: Result<AuthenticatedUser, AuthError>)
    ensures
        r == guard_user(token_present, decoded),
{
    if !token_present {
        return Err(AuthError::Unauthorized);
    }
    match decoded {
        Some(c) => Ok(AuthenticatedUser { user_id: c.user_id, role: c.role }),
        None => Err(AuthError::Unauthorized),
    }
}

/// The guard of administrator routes: only an authenticated administrator
/// passes; everything else is forbidden.
pub fn require_admin(user: Result<AuthenticatedUser, AuthError>) -> (r: Result<AdminUser, AuthError>)
    ensures
        r == guard_admin(user),
{
    match user {
        Ok(u) => match u.role {
            Role::Admin => Ok(AdminUser),
            Role::User => Err(AuthError::Forbidden),
        },
        Err(_) => Err(AuthError::Forbidden),
    }
}


/// A password that registration hashed logs in: login with the stored row
/// and the same password issues a token for that row's id and role, valid
/// for `TOKEN_LIFETIME_SECS` from now.
pub proof fn lemma_registered_password_logs_in(
    password: Seq<u8>,
    phc: Seq<char>,
    id: i32,
    role: Seq<char>,
    now_secs: u64,
)
    requires
        phc_parses(phc),
        argon2_accepts(password, phc),
    ensures
        login_outcome(Some((phc, id, role)), password, now_secs) == Ok::<Claims, AuthError>(
            Claims { user_id: id, exp: (now_secs + TOKEN_LIFETIME_SECS) as usize, role: role_named(role) },
        ),
{
}

/// Login succeeds only for a found account whose stored hash accepts the
/// password, and then issues the stored id and role.
pub proof fn lemma_login_needs_matching_password(
    account: Option<(Seq<char>, i32, Seq<char>)>,
    password: Seq<u8>,
    now_secs: u64,
)
    ensures
        login_outcome(account, password, now_secs) matches Ok(c) ==> {
            &&& account matches Some((phc, id, role))
            &&& phc_parses(phc)
            &&& argon2_accepts(password, phc)
            &&& c.user_id == id
            &&& c.role == role_named(role)
        },
{
}

/// An account registered without a role is an ordinary user; one registered
/// with the role `"admin"` is an administrator.
pub proof fn lemma_registered_roles()
    ensures
        role_named(requested_role_name(None)) == Role::User,
        forall|r: String| r@ == "admin"@ ==> role_named(requested_role_name(Some(r))) == Role::Admin,
{
    reveal_strlit("user");
    reveal_strlit("admin");
    assert("user"@.len() != "admin"@.len());
}

/// Only a decoded token of an administrator passes the administrator guard.
pub proof fn lemma_admin_guard(token_present: bool, decoded: Option<Claims>)
    ensures
        guard_admin(guard_user(token_present, decoded)) is Ok <==> (token_present
            && (decoded matches Some(c) && c.role == Role::Admin)),
{
}


/// What login answers, case by case, in terms of its inputs: an unknown
/// account or a password the stored hash does not accept is 401 whatever the
/// account's role, an unparsable stored hash is 500, login never answers 403,
/// and a success issues the stored id, an expiry one hour after `now_secs`,
/// and the administrator role exactly for the stored role name `"admin"`.
pub proof fn lemma_login_answers(
    account: Option<(Seq<char>, i32, Seq<char>)>,
    password: Seq<u8>,
    now_secs: u64,
)
    requires
        now_secs + TOKEN_LIFETIME_SECS <= usize::MAX,
    ensures
        account is None ==> login_outcome(account, password, now_secs) == Err::<Claims, AuthError>(
            AuthError::Unauthorized,
        ),
        account matches Some((phc, id, role)) ==> {
            &&& !phc_parses(phc) ==> login_outcome(account, password, now_secs) == Err::<
                Claims,
                AuthError,
            >(AuthError::InternalServerError)
            &&& phc_parses(phc) && !argon2_accepts(password, phc) ==> login_outcome(
                account,
                password,
                now_secs,
            ) == Err::<Claims, AuthError>(AuthError::Unauthorized)
            &&& phc_parses(phc) && argon2_accepts(password, phc) ==> (login_outcome(
                account,
                password,
                now_secs,
            ) matches Ok(c) && c.user_id == id && c.exp == now_secs + TOKEN_LIFETIME_SECS && (c.role
                == Role::Admin <==> role == "admin"@))
        },
        login_outcome(account, password, now_secs) != Err::<Claims, AuthError>(AuthError::Forbidden),
{
}

/// A stored role name means an administrator exactly when it is `"admin"`;
/// registration stores the requested name, or `"user"` when none was given.
pub proof fn lemma_role_names(name: Seq<char>, requested: String)
    ensures
        (role_named(name) == Role::Admin) <==> name == "admin"@,
        requested_role_name(Some(requested)) == requested@,
        requested_role_name(None) == "user"@,
{
}

/// The user guard lets through every request whose token is present and
/// decodes, whatever the role, carrying the claims' id and role, and answers
/// 401 otherwise.
pub proof fn lemma_user_guard(token_present: bool, decoded: Option<Claims>)
    ensures
        token_present && decoded is Some ==> guard_user(token_present, decoded) == Ok::<
            AuthenticatedUser,
            AuthError,
        >(AuthenticatedUser { user_id: decoded->0.user_id, role: decoded->0.role }),
        !(token_present && decoded is Some) ==> guard_user(token_present, decoded) == Err::<
            AuthenticatedUser,
            AuthError,
        >(AuthError::Unauthorized),
{
}

/// The administrator guard passes exactly an authenticated administrator and
/// answers 403 to everything else, including requests without a valid token.
pub proof fn lemma_admin_guard_cases(user: Result<AuthenticatedUser, AuthError>)
    ensures
        (user matches Ok(u) && u.role == Role::Admin) ==> guard_admin(user) == Ok::<AdminUser, AuthError>(
            AdminUser,
        ),
        !(user matches Ok(u) && u.role == Role::Admin) ==> guard_admin(user) == Err::<
            AdminUser,
            AuthError,
        >(AuthError::Forbidden),
{
}

} // verus!
