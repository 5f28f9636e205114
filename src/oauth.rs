//! Third-party login: choosing a provider, its authorization address, and
//! turning a provider's verified identity into a session.
use vstd::prelude::*;
use crate::accounts::{MongoDB, first_match};
use crate::error::{Error, ErrorEnum};
use crate::model::{Account, ProfileHints, TokenPair, UserModel, copy_text};
use crate::outside::{append_query, query_pairs_of, url_query, url_with_query};
use crate::signup::{created_from, insert_user, issued_for, none_match, refused};
use crate::token::{MAX_TIMESTAMP, create_token};

verus! {

/// Google's identity provider.
#[derive(Debug, Clone, Copy, PartialEq, Eq)]
pub struct GoogleProvider;

/// LinkedIn's identity provider; its login is not implemented yet.
#[derive(Debug, Clone, Copy, PartialEq, Eq)]
pub struct LinkedInProvider;

/// The supported identity providers.
#[derive(Debug, Clone, Copy, PartialEq, Eq)]
pub enum Providers {
    LinkedIn(LinkedInProvider),
    Google(GoogleProvider),
}

/// The provider named by `provider_slug`.
pub fn get_provider(provider_slug: &str) -> (r: Result<Providers, Error>)
    ensures
        provider_slug@ == "linkedin"@ ==> r matches Ok(Providers::LinkedIn(_)),
        provider_slug@ == "google"@ ==> r matches Ok(Providers::Google(_)),
        provider_slug@ != "linkedin"@ && provider_slug@ != "google"@ ==> r matches Err(
            Error::DefinedError(ErrorEnum::OAuthProviderNotFound),
        ),
{
    proof {
        reveal_strlit("linkedin");
        reveal_strlit("google");
        assert("linkedin"@[0] != "google"@[0]);
    }
    let slug = String::from_str(provider_slug);
    if slug == String::from_str("linkedin") {
        Ok(Providers::LinkedIn(LinkedInProvider))
    } else if slug == String::from_str("google") {
        Ok(Providers::Google(GoogleProvider))
    } else {
        Err(Error::DefinedError(ErrorEnum::OAuthProviderNotFound))
    }
}

/// The registration of this service with a provider.
#[derive(Debug, Clone, PartialEq, Eq)]
pub struct OAuthClient {
    pub client_id: String,
    pub redirect_uri: String,
}

pub open spec fn google_auth_pairs(c: OAuthClient) -> Seq<(Seq<char>, Seq<char>)> {
    seq![
        ("response_type"@, "code"@),
        ("client_id"@, c.client_id@),
        ("redirect_uri"@, c.redirect_uri@),
        ("scope"@, "https://www.googleapis.com/auth/userinfo.profile https://www.googleapis.com/auth/userinfo.email"@),
        ("access_type"@, "offline"@),
        ("prompt"@, "consent"@),
    ]
}

pub open spec fn linkedin_auth_pairs(c: OAuthClient) -> Seq<(Seq<char>, Seq<char>)> {
    seq![
        ("response_type"@, "code"@),
        ("client_id"@, c.client_id@),
        ("redirect_uri"@, c.redirect_uri@),
        ("scope"@, "openid email profile r_liteprofile"@),
    ]
}

/// `r` is the address `base` with `pairs` as its query, or the parse error.
pub open spec fn redirect_result(base: Seq<char>, pairs: Seq<(Seq<char>, Seq<char>)>, r: Result<String, Error>) -> bool {
    match url_with_query(base, pairs) {
        Some(u) => r matches Ok(s) && s@ == u,
        None => r matches Err(Error::ParseError(_)),
    }
}

fn pair(k: &str, v: &str) -> (r: (String, String))
    ensures
        r.0@ == k@,
        r.1@ == v@,
{
    (String::from_str(k), String::from_str(v))
}

fn authorization_url(base: &str, pairs: Vec<(String, String)>) -> (r: Result<String, Error>)
    ensures
        redirect_result(base@, pairs.deep_view(), r),
{
    match append_query(base, &pairs) {
        Ok(s) => Ok(s),
        Err(e) => Err(Error::ParseError(e)),
    }
}

/// A provider's answer from its token endpoint.
#[derive(Debug, Clone, PartialEq, Eq)]
pub struct GoogleAccessTokenResponse {
    pub access_token: Option<String>,
    pub expires_in: Option<u64>,
    pub refresh_token: Option<String>,
    pub scope: Option<String>,
    pub token_type: Option<String>,
    pub id_token: Option<String>,
    pub error: Option<String>,
    pub error_description: Option<String>,
}

/// The claims of a provider's identity token, after its signature was
/// checked.
#[derive(Debug, Clone, PartialEq, Eq)]
pub struct GoogleAccessTokenClaims {
    pub exp: u64,
    pub email: Option<String>,
    pub given_name: Option<String>,
    pub family_name: Option<String>,
}

/// A completed third-party login: the session's token claims and the name
/// fields the provider reported.
#[derive(Debug, Clone, PartialEq, Eq)]
pub struct OAuthLogin {
    pub tokens: TokenPair,
    pub profile_hints: ProfileHints,
}

/// The account created for a first login by email `e`: no password and the
/// default role.
pub open spec fn oauth_account(e: Seq<char>) -> Account {
    Account { id: None, email: Some(e), mobile_number: None, password: None, roles: seq!["default"@] }
}

/// The outcome of a login with verified provider claims `c` at `now`.
pub open spec fn oauth_outcome(before: MongoDB, after: MongoDB, c: GoogleAccessTokenClaims, now: u64, r: Result<OAuthLogin, Error>) -> bool {
    &&& r matches Ok(l) ==> l.profile_hints.first_name.deep_view() == c.given_name.deep_view()
        && l.profile_hints.last_name.deep_view() == c.family_name.deep_view()
    &&& if now > c.exp {
        r matches Err(Error::DefinedError(ErrorEnum::TokenExpired)) && after == before
    } else {
        match c.email {
            None => r matches Err(Error::DefinedError(ErrorEnum::EmailMobileEmpty)) && after == before,
            Some(e) => if none_match(before.accounts(), Some(e@), None) {
                let created = created_from(before, oauth_account(e@));
                &&& r matches Ok(l) && issued_for(l.tokens, created, now)
                &&& after.accounts() == before.accounts().push(created)
            } else {
                &&& exists|u: Account| first_match(before.accounts(), u, Some(e@), None, None) && (r matches Ok(l) && issued_for(l.tokens, u, now))
                &&& after == before
            },
        }
    }
}

impl GoogleProvider {
    /// Google's authorization address for this service.
    pub fn get_redirect_uri(&self, client: &OAuthClient) -> (r: Result<String, Error>)
        ensures
            redirect_result("https://accounts.google.com/o/oauth2/v2/auth"@, google_auth_pairs(*client), r),
    {
        let pairs = vec![
            pair("response_type", "code"),
            (String::from_str("client_id"), client.client_id.clone()),
            (String::from_str("redirect_uri"), client.redirect_uri.clone()),
            pair("scope", "https://www.googleapis.com/auth/userinfo.profile https://www.googleapis.com/auth/userinfo.email"),
            pair("access_type", "offline"),
            pair("prompt", "consent"),
        ];
        assert(pairs.deep_view() =~= google_auth_pairs(*client));
        authorization_url("https://accounts.google.com/o/oauth2/v2/auth", pairs)
    }

    /// The identity token of a token-endpoint answer: a reported error is
    /// `OAuthFailed` with its description; an answer without identity token
    /// is `OAuthFailed` too.
    pub fn id_token_of(&self, resp: &GoogleAccessTokenResponse) -> (r: Result<String, Error>)
        ensures
            match resp.error {
                Some(e) => r matches Err(Error::DefinedError(ErrorEnum::OAuthFailed(m))) && m@ == e@ + ": "@
                    + match resp.error_description {
                    Some(d) => d@,
                    None => Seq::empty(),
                },
                None => match resp.id_token {
                    Some(t) => r matches Ok(s) && s@ == t@,
                    None => r matches Err(Error::DefinedError(ErrorEnum::OAuthFailed(m))) && m@
                        == "Missing id token in response"@,
                },
            },
    {
        match &resp.error {
            Some(e) => {
                let mut m = e.clone();
                m.append(": ");
                match &resp.error_description {
                    Some(d) => m.append(d.as_str()),
                    None => {},
                }
                Err(Error::DefinedError(ErrorEnum::OAuthFailed(m)))
            },
            None => match &resp.id_token {
                Some(t) => Ok(t.clone()),
                None => Err(
                    Error::DefinedError(ErrorEnum::OAuthFailed(String::from_str("Missing id token in response"))),
                ),
            },
        }
    }

    /// Signs in the holder of verified identity claims `claims` at `now`:
    /// an expired identity is `TokenExpired`; the account with the claimed
    /// email is used, or created without password on a first login.
    pub fn handle_login(&self, db: &mut MongoDB, claims: GoogleAccessTokenClaims, now: u64) -> (r: Result<OAuthLogin, Error>)
        requires
            old(db).wf(),
            old(db).counter() < u64::MAX,
            now <= MAX_TIMESTAMP,
        ensures
            final(db).wf(),
            oauth_outcome(*old(db), *final(db), claims, now, r),
    {
        if now > claims.exp {
            return Err(Error::DefinedError(ErrorEnum::TokenExpired));
        }
        let profile_hints = ProfileHints {
            first_name: copy_text(&claims.given_name),
            last_name: copy_text(&claims.family_name),
        };
        let email = match &claims.email {
            Some(e) => e,
            None => {
                return Err(Error::DefinedError(ErrorEnum::EmailMobileEmpty));
            },
        };
        let user = match db.find_user(&Some(email.clone()), &None, &None) {
            Some(u) => u,
            None => {
                let candidate = UserModel {
                    id: None,
                    email: Some(email.clone()),
                    mobile_number: None,
                    password: None,
                    roles: vec![String::from_str("default")],
                };
                assert(candidate@ == oauth_account(email@)) by {
                    assert(candidate@.roles =~= seq!["default"@]);
                }
                assert(!refused(*db, candidate@));
                match insert_user(db, candidate) {
                    Ok(u) => u,
                    Err(e) => {
                        return Err(e);
                    },
                }
            },
        };
        let tokens = create_token(&user, now);
        Ok(OAuthLogin { tokens, profile_hints })
    }
}

impl LinkedInProvider {
    /// LinkedIn's authorization address for this service.
    pub fn get_redirect_uri(&self, client: &OAuthClient) -> (r: Result<String, Error>)
        ensures
            redirect_result("https://www.linkedin.com/oauth/v2/authorization"@, linkedin_auth_pairs(*client), r),
    {
        let pairs = vec![
            pair("response_type", "code"),
            (String::from_str("client_id"), client.client_id.clone()),
            (String::from_str("redirect_uri"), client.redirect_uri.clone()),
            pair("scope", "openid email profile r_liteprofile"),
        ];
        assert(pairs.deep_view() =~= linkedin_auth_pairs(*client));
        authorization_url("https://www.linkedin.com/oauth/v2/authorization", pairs)
    }

    /// LinkedIn login is not implemented.
    pub fn handle_login(&self) -> (r: Result<OAuthLogin, Error>)
        ensures
            r matches Err(Error::DefinedError(ErrorEnum::NotYetImplemented)),
    {
        Err(Error::DefinedError(ErrorEnum::NotYetImplemented))
    }
}

impl Providers {
    /// The chosen provider's authorization address for this service.
    pub fn get_redirect_uri(&self, client: &OAuthClient) -> (r: Result<String, Error>)
        ensures
            match *self {
                Providers::Google(_) => redirect_result(
                    "https://accounts.google.com/o/oauth2/v2/auth"@,
                    google_auth_pairs(*client),
                    r,
                ),
                Providers::LinkedIn(_) => redirect_result(
                    "https://www.linkedin.com/oauth/v2/authorization"@,
                    linkedin_auth_pairs(*client),
                    r,
                ),
            },
    {
        match self {
            Providers::Google(p) => p.get_redirect_uri(client),
            Providers::LinkedIn(p) => p.get_redirect_uri(client),
        }
    }
}

/// The first value of `name` in the decoded query `pairs`.
pub open spec fn first_value(pairs: Seq<(Seq<char>, Seq<char>)>, name: Seq<char>) -> Option<Seq<char>>
    decreases pairs.len(),
{
    if pairs.len() == 0 {
        None
    } else if pairs[0].0 == name {
        Some(pairs[0].1)
    } else {
        first_value(pairs.drop_first(), name)
    }
}

/// The authorization code of a provider's callback address: an address
/// that does not parse is a `ParseError`, one without `code` in its query
/// is a `ValidationError`.
pub fn code_from_callback(url: &str) -> (r: Result<String, Error>)
    ensures
        match url_query(url@) {
            None => r matches Err(Error::ParseError(_)),
            Some(q) => match first_value(q, "code"@) {
                Some(c) => r matches Ok(s) && s@ == c,
                None => r matches Err(Error::DefinedError(ErrorEnum::ValidationError(m))) && m@
                    == "code cannot be empty"@,
            },
        },
{
    let pairs = match query_pairs_of(url) {
        Ok(p) => p,
        Err(e) => {
            return Err(Error::ParseError(e));
        },
    };
    let name = String::from_str("code");
    let ghost q = pairs.deep_view();
    let mut i: usize = 0;
    assert(q.subrange(0, q.len() as int) =~= q);
    while i < pairs.len()
        invariant
            i <= pairs.len(),
            q == pairs.deep_view(),
            url_query(url@) == Some(q),
            name@ == "code"@,
            first_value(q, "code"@) == first_value(q.subrange(i as int, q.len() as int), "code"@),
        decreases pairs.len() - i,
    {
        proof {
            let rest = q.subrange(i as int, q.len() as int);
            assert(rest.drop_first() =~= q.subrange(i + 1, q.len() as int));
            assert(rest[0] == q[i as int]);
        }
        assert(q[i as int] == (pairs@[i as int].0@, pairs@[i as int].1@));
        if pairs[i].0 == name {
            let value = pairs[i].1.clone();
            assert(first_value(q.subrange(i as int, q.len() as int), "code"@) == Some(value@));
            return Ok(value);
        }
        i = i + 1;
    }
    assert(q.subrange(i as int, q.len() as int).len() == 0);
    Err(Error::DefinedError(ErrorEnum::ValidationError(String::from_str("code cannot be empty"))))
}

} // verus!
