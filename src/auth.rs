use vstd::prelude::*;
use vstd::string::*;
use crate::http::{is_success, success_status};
use crate::model::Credentials;

verus! {

/// The identity service's token endpoint.
pub const TOKEN_URL: &'static str = "https://id.sophos.com/api/v2/oauth2/token";

/// A bearer token as the identity service hands it out.
#[derive(Debug)]
pub struct BearerToken {
    pub access_token: String,
    pub token_type: String,
    pub expires_in: u64,
}

/// Why no token could be had.
#[derive(Debug)]
pub enum AuthError {
    /// The request could not be sent or answered.
    Request(String),
    /// The service answered with this status, outside 2xx.
    Status(u16),
    /// A 2xx answer whose body is not a token.
    Parse(String),
}

/// The form fields of a client-credentials token request.
pub open spec fn token_form_spec(client_id: Seq<char>, client_secret: Seq<char>) -> Seq<
    (Seq<char>, Seq<char>),
> {
    seq![
        ("grant_type"@, "client_credentials"@),
        ("client_id"@, client_id),
        ("client_secret"@, client_secret),
        ("scope"@, "token"@),
    ]
}

/// The form-encoded fields of the token request for `credentials`.
pub fn token_form(credentials: &Credentials) -> (r: Vec<(String, String)>)
    ensures
        r@.map_values(|f: (String, String)| (f.0@, f.1@)) == token_form_spec(
            credentials.client_id@,
            credentials.client_secret@,
        ),
{
    let mut form: Vec<(String, String)> = Vec::new();
    form.push((String::from_str("grant_type"), String::from_str("client_credentials")));
    form.push((String::from_str("client_id"), credentials.client_id.clone()));
    form.push((String::from_str("client_secret"), credentials.client_secret.clone()));
    form.push((String::from_str("scope"), String::from_str("token")));
    assert(form@.map_values(|f: (String, String)| (f.0@, f.1@)) =~= token_form_spec(
        credentials.client_id@,
        credentials.client_secret@,
    ));
    form
}

/// The access token from the answer to a token request, judged by its status
/// and the outcome of decoding its body: a status outside 2xx is an error
/// whatever the body holds.
pub fn token_outcome(status: u16, body: Result<BearerToken, String>) -> (r: Result<
    String,
    AuthError,
>)
    ensures
        !success_status(status) ==> r == Err::<String, AuthError>(AuthError::Status(status)),
        success_status(status) ==> r == match body {
            Ok(token) => Ok(token.access_token),
            Err(detail) => Err(AuthError::Parse(detail)),
        },
{
    if !is_success(status) {
        return Err(AuthError::Status(status));
    }
    match body {
        Ok(token) => Ok(token.access_token),
        Err(detail) => Err(AuthError::Parse(detail)),
    }
}

} // verus!
