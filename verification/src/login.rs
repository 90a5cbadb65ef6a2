//! What the authentication handshake exchanges: the form fields posted to
//! the token endpoint, and the response carrying the bearer token.
//!
//! The HTTP call itself is the embedding application's; it posts exactly the
//! fields built here and hands the token string back to the library.

use vstd::prelude::*;
use crate::config::LoginParameters;

verus! {

/// The authentication endpoint's answer: the bearer token for the run.
pub struct LoginResponse {
    pub access_token: String,
}

/// The form fields of the password-grant login request, as `(name, value)`
/// pairs in the order they are posted.
pub fn form_fields(params: &LoginParameters) -> (r: Vec<(String, String)>)
    ensures
        r@.len() == 5,
        r@[0].0@ == "username"@ && r@[0].1 == params.username,
        r@[1].0@ == "password"@ && r@[1].1 == params.password,
        r@[2].0@ == "client_id"@ && r@[2].1 == params.client_id,
        r@[3].0@ == "client_secret"@ && r@[3].1 == params.client_secret,
        r@[4].0@ == "grant_type"@ && r@[4].1 == params.grant_type,
{
    let mut v: Vec<(String, String)> = Vec::new();
    v.push(("username".to_owned(), params.username.clone()));
    v.push(("password".to_owned(), params.password.clone()));
    v.push(("client_id".to_owned(), params.client_id.clone()));
    v.push(("client_secret".to_owned(), params.client_secret.clone()));
    v.push(("grant_type".to_owned(), params.grant_type.clone()));
    v
}

} // verus!
