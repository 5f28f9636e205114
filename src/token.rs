//! Token claims: issuing an access/refresh pair for an account, checking a
//! decoded token's expiry, and minting a fresh access token from a refresh
//! token. Signing and signature checks happen where the claims are
//! serialized.
use vstd::prelude::*;
use crate::accounts::{MongoDB, passes_filters, first_match};
use crate::error::{Error, ErrorEnum};
use crate::model::{Account, TokenClaims, TokenPair, UserModel, copy_text, copy_texts};

verus! {

/// Lifetime of an access token, in seconds.
pub const ACCESS_TOKEN_LIFETIME: u64 = 86400;

/// Lifetime of a refresh token, in seconds: thirty days, longer than an
/// access token so that it can outlive several of them.
pub const REFRESH_TOKEN_LIFETIME: u64 = 2592000;

/// The latest clock reading at which a token can be issued without its
/// expiry leaving the clock's range.
pub const MAX_TIMESTAMP: u64 = u64::MAX - REFRESH_TOKEN_LIFETIME;

/// Model of token claims.
pub struct Claims {
    pub email: Option<Seq<char>>,
    pub sub: Seq<char>,
    pub iss: Seq<char>,
    pub session_id: Seq<char>,
    pub roles: Seq<Seq<char>>,
    pub iat: u64,
    pub is_refresh: Option<bool>,
    pub exp: u64,
}

impl View for TokenClaims {
    type V = Claims;

    open spec fn view(&self) -> Claims {
        Claims {
            email: self.email.deep_view(),
            sub: self.sub@,
            iss: self.iss@,
            session_id: self.session_id@,
            roles: self.roles.deep_view(),
            iat: self.iat,
            is_refresh: self.is_refresh,
            exp: self.exp,
        }
    }
}

/// The claims issued for account `u` at `now`: access claims carry no
/// refresh marker; refresh claims carry it and live longer.
pub open spec fn claims_for(u: Account, now: u64, refresh: bool) -> Claims {
    Claims {
        email: u.email,
        sub: u.id->Some_0,
        iss: "greenie.one"@,
        session_id: Seq::empty(),
        roles: u.roles,
        iat: now,
        is_refresh: if refresh { Some(true) } else { None },
        exp: if refresh {
            (now + REFRESH_TOKEN_LIFETIME) as u64
        } else {
            (now + ACCESS_TOKEN_LIFETIME) as u64
        },
    }
}

fn claims(user: &UserModel, id: &String, now: u64, refresh: bool) -> (r: TokenClaims)
    requires
        user@.id == Some(id@),
        now <= MAX_TIMESTAMP,
    ensures
        r@ == claims_for(user@, now, refresh),
{
    let exp = if refresh {
        now + REFRESH_TOKEN_LIFETIME
    } else {
        now + ACCESS_TOKEN_LIFETIME
    };
    TokenClaims {
        email: copy_text(&user.email),
        sub: id.clone(),
        iss: String::from_str("greenie.one"),
        session_id: String::new(),
        roles: copy_texts(&user.roles),
        iat: now,
        is_refresh: if refresh { Some(true) } else { None },
        exp,
    }
}

/// An access and a refresh token's claims for an account that has an
/// identifier, issued at `now`.
pub fn create_token(user: &UserModel, now: u64) -> (r: TokenPair)
    requires
        user@.id is Some,
        now <= MAX_TIMESTAMP,
    ensures
        r.access@ == claims_for(user@, now, false),
        r.refresh matches Some(c) && c@ == claims_for(user@, now, true),
{
    let id = match &user.id {
        Some(i) => i,
        None => vstd::pervasive::unreached(),
    };
    TokenPair { access: claims(user, id, now, false), refresh: Some(claims(user, id, now, true)) }
}

/// A token whose expiry has passed is `TokenExpired`; any other is handed
/// back unchanged.
pub open spec fn expiry_checked(claims: TokenClaims, now: u64, r: Result<TokenClaims, Error>) -> bool {
    &&& claims.exp < now ==> (r matches Err(Error::DefinedError(ErrorEnum::TokenExpired)))
    &&& claims.exp >= now ==> r == Ok::<TokenClaims, Error>(claims)
}

/// Checks a decoded token's expiry against `now`: a token whose expiry has
/// passed is `TokenExpired`; otherwise its claims are handed back.
pub fn decode_token(claims: TokenClaims, now: u64) -> (r: Result<TokenClaims, Error>)
    ensures
        expiry_checked(claims, now, r),
{
    if claims.exp < now {
        return Err(Error::DefinedError(ErrorEnum::TokenExpired));
    }
    Ok(claims)
}

/// No stored account has identifier `id`.
pub open spec fn unknown_id(s: Seq<Account>, id: Seq<char>) -> bool {
    forall|j: int| 0 <= j < s.len() ==> !passes_filters(#[trigger] s[j], None, None, Some(id))
}

/// `p` holds only fresh access claims, issued at `now` for the account
/// with identifier `id`.
pub open spec fn refreshed_for(s: Seq<Account>, id: Seq<char>, now: u64, p: TokenPair) -> bool {
    exists|u: Account|
        first_match(s, u, None, None, Some(id)) && p.access@ == claims_for(u, now, false) && p.refresh is None
}

/// A fresh access token's claims for the account with identifier
/// `user_id`; an unknown identifier is `UnAuthorized`.
pub fn get_new_tokens(db: &MongoDB, user_id: &String, now: u64) -> (r: Result<TokenPair, Error>)
    requires
        now <= MAX_TIMESTAMP,
    ensures
        unknown_id(db.accounts(), user_id@) ==> r matches Err(Error::DefinedError(ErrorEnum::UnAuthorized)),
        !unknown_id(db.accounts(), user_id@) ==> (r matches Ok(p) && refreshed_for(db.accounts(), user_id@, now, p)),
{
    let user = match db.find_user(&None, &None, &Some(user_id.clone())) {
        Some(u) => u,
        None => {
            return Err(Error::DefinedError(ErrorEnum::UnAuthorized));
        },
    };
    let pair = create_token(&user, now);
    Ok(TokenPair { access: pair.access, refresh: None })
}

/// Exchanges the decoded claims of a refresh token for a fresh access
/// token's claims. Claims without the refresh marker are always
/// `InvalidRefreshToken`; an expired token is `TokenExpired`; an account
/// that no longer exists is `UnAuthorized`. The refresh token is not
/// rotated.
pub fn get_refreshed_tokens(db: &MongoDB, claims: &TokenClaims, now: u64) -> (r: Result<TokenPair, Error>)
    requires
        now <= MAX_TIMESTAMP,
    ensures
        claims.is_refresh != Some(true) ==> r matches Err(Error::DefinedError(ErrorEnum::InvalidRefreshToken)),
        claims.is_refresh == Some(true) && claims.exp < now ==> r matches Err(
            Error::DefinedError(ErrorEnum::TokenExpired),
        ),
        claims.is_refresh == Some(true) && claims.exp >= now ==> {
            &&& unknown_id(db.accounts(), claims.sub@) ==> (r matches Err(Error::DefinedError(ErrorEnum::UnAuthorized)))
            &&& !unknown_id(db.accounts(), claims.sub@) ==> (r matches Ok(p) && refreshed_for(
                db.accounts(),
                claims.sub@,
                now,
                p,
            ))
        },
{
    if claims.is_refresh != Some(true) {
        return Err(Error::DefinedError(ErrorEnum::InvalidRefreshToken));
    }
    if claims.exp < now {
        return Err(Error::DefinedError(ErrorEnum::TokenExpired));
    }
    get_new_tokens(db, &claims.sub, now)
}

} // verus!
