use vstd::prelude::*;

verus! {

/// How a database call of a user handler ended.
#[derive(Debug, Clone, Copy, PartialEq, Eq, Structural)]
pub enum DbError {
    /// The query found no row.
    RowNotFound,
    /// Any other failure.
    Other,
}

/// Status of the user creation endpoint: 201 when the row was inserted.
pub fn create_user_status(inserted: bool) -> (code: u16)
    ensures
        code == if inserted { 201u16 } else { 500u16 },
{
    if inserted {
        201
    } else {
        500
    }
}

/// Reply of the user lookup endpoint: the user, 404 when there is none, 500
/// on any other failure.
pub fn get_user_reply<T>(outcome: Result<T, DbError>) -> (r: Result<T, u16>)
    ensures
        match outcome {
            Ok(u) => r == Ok::<T, u16>(u),
            Err(DbError::RowNotFound) => r == Err::<T, u16>(404),
            Err(DbError::Other) => r == Err::<T, u16>(500),
        },
{
    match outcome {
        Ok(u) => Ok(u),
        Err(DbError::RowNotFound) => Err(404),
        Err(DbError::Other) => Err(500),
    }
}

/// Status of the e-mail update endpoint.
pub fn update_email_status(updated: bool) -> (code: u16)
    ensures
        code == if updated { 200u16 } else { 500u16 },
{
    if updated {
        200
    } else {
        500
    }
}

/// Status of the user deletion endpoint.
pub fn delete_user_status(deleted: bool) -> (code: u16)
    ensures
        code == if deleted { 204u16 } else { 500u16 },
{
    if deleted {
        204
    } else {
        500
    }
}

/// Status of the deletion endpoint that counts affected rows: 404 when
/// nothing was deleted, 204 otherwise.
pub fn delete_rows_status(rows_affected: u64) -> (code: u16)
    ensures
        code == if rows_affected == 0 { 404u16 } else { 204u16 },
{
    if rows_affected == 0 {
        404
    } else {
        204
    }
}

/// A status code as the `http` crate accepts it (`StatusCode::from_u16`
/// takes 100 through 999), else 500.
pub fn upstream_status(code: u16) -> (r: u16)
    ensures
        r == if 100 <= code <= 999 { code } else { 500u16 },
{
    if 100 <= code && code <= 999 {
        code
    } else {
        500
    }
}

/// What the proxy answers: the upstream status and body when the upstream
/// answered (`None` when it could not be reached), else 502 with a fixed
/// message.
pub fn proxy_reply(upstream: Option<(u16, String)>) -> (r: (u16, String))
    ensures
        match upstream {
            Some((code, body)) => r.0 == (if 100 <= code <= 999 { code } else { 500u16 })
                && r.1@ == body@,
            None => r.0 == 502 && r.1@ == "Django unreachable"@,
        },
{
    match upstream {
        Some((code, body)) => (upstream_status(code), body),
        None => (502, String::from_str("Django unreachable")),
    }
}

/// The static `Authorization` value the API expects.
pub const POC_AUTH_HEADER: &'static str = "Bearer secret-poc-token";

/// Whether a request may pass the API's token check: its `Authorization`
/// header must be exactly `POC_AUTH_HEADER`.
pub fn authorize_request(header: Option<&str>) -> (r: bool)
    ensures
        r == (header matches Some(h) && h@ == "Bearer secret-poc-token"@),
{
    match header {
        Some(h) => crate::text::str_eq(h, POC_AUTH_HEADER),
        None => false,
    }
}

/// A user of the demonstration endpoint.
#[derive(Debug)]
pub struct DemoUser {
    pub id: u32,
    pub name: String,
}

/// The demonstration endpoint's lookup: user 1 is Alice, user 2 is Bob,
/// there is no other.
pub fn demo_user(id: u32) -> (r: Option<DemoUser>)
    ensures
        id == 1 ==> (r matches Some(u) && u.id == 1 && u.name@ == "Alice"@),
        id == 2 ==> (r matches Some(u) && u.id == 2 && u.name@ == "Bob"@),
        id != 1 && id != 2 ==> r is None,
{
    if id == 1 {
        Some(DemoUser { id: 1, name: String::from_str("Alice") })
    } else if id == 2 {
        Some(DemoUser { id: 2, name: String::from_str("Bob") })
    } else {
        None
    }
}

/// Rejections of the article write endpoints.
#[derive(Debug, Clone, Copy, PartialEq, Eq, Structural)]
pub enum TokenRejection {
    MissingToken,
    InvalidToken,
}

impl TokenRejection {
    /// The message sent with the 401 answer.
    pub fn message(&self) -> (m: &'static str)
        ensures
            m@ == match *self {
                TokenRejection::MissingToken => "missing token"@,
                TokenRejection::InvalidToken => "invalid token"@,
            },
    {
        match self {
            TokenRejection::MissingToken => "missing token",
            TokenRejection::InvalidToken => "invalid token",
        }
    }
}

/// The article write endpoints need the `token` cookie, and it must validate.
/// `valid` is what validating the present token gave.
pub fn token_gate(token_present: bool, valid: bool) -> (r: Result<(), TokenRejection>)
    ensures
        r == if !token_present {
            Err(TokenRejection::MissingToken)
        } else if !valid {
            Err(TokenRejection::InvalidToken)
        } else {
            Ok(())
        },
{
    if !token_present {
        Err(TokenRejection::MissingToken)
    } else if !valid {
        Err(TokenRejection::InvalidToken)
    } else {
        Ok(())
    }
}

/// The initializer that installs the CORS layer.
#[derive(Debug)]
pub struct CorsInitializer;

impl CorsInitializer {
    /// The initializer's name.
    pub fn name(&self) -> (n: String)
        ensures
            n@ == "cors"@,
    {
        String::from_str("cors")
    }
}

/// An article to seed the database with.
#[derive(Debug)]
pub struct ArticleDraft {
    pub title: String,
    pub content: String,
}

/// The two articles the seeding program inserts, in order.
pub fn seed_article_drafts() -> (r: Vec<ArticleDraft>)
    ensures
        r.len() == 2,
        r[0].title@ == "Premier article"@,
        r[0].content@ == "Contenu du premier article"@,
        r[1].title@ == "Second article"@,
        r[1].content@ == "Contenu du second article"@,
{
    let mut r: Vec<ArticleDraft> = Vec::new();
    r.push(ArticleDraft {
        title: String::from_str("Premier article"),
        content: String::from_str("Contenu du premier article"),
    });
    r.push(ArticleDraft {
        title: String::from_str("Second article"),
        content: String::from_str("Contenu du second article"),
    });
    r
}

} // verus!
