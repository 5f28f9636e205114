//! Data shapes shared by the flows: accounts, staged identities, reset
//! records and token claims.
use vstd::prelude::*;

verus! {

/// An account as the stores hold it; `id` is assigned when it is persisted.
#[derive(Debug, Clone, PartialEq, Eq)]
pub struct UserModel {
    pub id: Option<String>,
    pub email: Option<String>,
    pub mobile_number: Option<String>,
    pub password: Option<String>,
    pub roles: Vec<String>,
}

/// Mathematical model of an account.
pub struct Account {
    pub id: Option<Seq<char>>,
    pub email: Option<Seq<char>>,
    pub mobile_number: Option<Seq<char>>,
    pub password: Option<Seq<char>>,
    pub roles: Seq<Seq<char>>,
}

impl View for UserModel {
    type V = Account;

    open spec fn view(&self) -> Account {
        Account {
            id: self.id.deep_view(),
            email: self.email.deep_view(),
            mobile_number: self.mobile_number.deep_view(),
            password: self.password.deep_view(),
            roles: self.roles.deep_view(),
        }
    }
}

/// A copy of an optional text, with the same contents.
pub fn copy_text(o: &Option<String>) -> (r: Option<String>)
    ensures
        r.deep_view() == o.deep_view(),
{
    match o {
        Some(s) => Some(s.clone()),
        None => None,
    }
}

/// A copy of a list of texts, with the same contents in the same order.
pub fn copy_texts(v: &Vec<String>) -> (r: Vec<String>)
    ensures
        r.deep_view() == v.deep_view(),
{
    let mut r: Vec<String> = Vec::new();
    let mut i: usize = 0;
    while i < v.len()
        invariant
            i <= v.len(),
            r.len() == i,
            forall|j: int| 0 <= j < i ==> r@[j]@ == v@[j]@,
        decreases v.len() - i,
    {
        r.push(v[i].clone());
        i = i + 1;
    }
    assert(r.deep_view() =~= v.deep_view());
    r
}

impl UserModel {
    /// A copy of this account with the same contents.
    pub fn duplicate(&self) -> (r: UserModel)
        ensures
            r@ == self@,
    {
        UserModel {
            id: copy_text(&self.id),
            email: copy_text(&self.email),
            mobile_number: copy_text(&self.mobile_number),
            password: copy_text(&self.password),
            roles: copy_texts(&self.roles),
        }
    }
}

/// The two flows that stage an identity before a passcode confirms it.
#[derive(Debug, Clone, Copy, PartialEq, Eq, Structural)]
pub enum ValidationType {
    Login,
    Signup,
}

impl ValidationType {
    /// The flow's name in upper case.
    pub fn to_text(&self) -> (r: String)
        ensures
            r@ == (match *self {
                ValidationType::Login => "LOGIN"@,
                ValidationType::Signup => "SIGNUP"@,
            }),
    {
        match self {
            ValidationType::Login => String::from_str("LOGIN"),
            ValidationType::Signup => String::from_str("SIGNUP"),
        }
    }
}

/// A staged identity: the flow it belongs to and the candidate account.
#[derive(Debug, Clone)]
pub struct ValidationData {
    pub validation_type: ValidationType,
    pub user: UserModel,
}

/// Model of a staged identity.
pub struct Staged {
    pub validation_type: ValidationType,
    pub user: Account,
}

impl View for ValidationData {
    type V = Staged;

    open spec fn view(&self) -> Staged {
        Staged { validation_type: self.validation_type, user: self.user@ }
    }
}

impl ValidationData {
    pub fn duplicate(&self) -> (r: ValidationData)
        ensures
            r@ == self@,
    {
        ValidationData { validation_type: self.validation_type, user: self.user.duplicate() }
    }
}

/// A password-reset record: the passcode and the account it resets.
#[derive(Debug, Clone, PartialEq, Eq)]
pub struct ChangePasswordValidationData {
    pub otp: String,
    pub user_id: String,
}

/// Model of a password-reset record: (passcode, account identifier).
pub struct ResetRecord {
    pub otp: Seq<char>,
    pub user_id: Seq<char>,
}

impl View for ChangePasswordValidationData {
    type V = ResetRecord;

    open spec fn view(&self) -> ResetRecord {
        ResetRecord { otp: self.otp@, user_id: self.user_id@ }
    }
}

impl ChangePasswordValidationData {
    pub fn duplicate(&self) -> (r: ChangePasswordValidationData)
        ensures
            r@ == self@,
    {
        ChangePasswordValidationData { otp: self.otp.clone(), user_id: self.user_id.clone() }
    }
}

/// The claims that a signed token carries. Access and refresh tokens differ
/// only in `is_refresh`.
#[derive(Debug, Clone, PartialEq, Eq)]
pub struct TokenClaims {
    pub email: Option<String>,
    pub sub: String,
    pub iss: String,
    pub session_id: String,
    pub roles: Vec<String>,
    pub iat: u64,
    pub is_refresh: Option<bool>,
    pub exp: u64,
}

/// Signed tokens as handed to a client.
#[derive(Debug, Clone, PartialEq, Eq)]
pub struct AccessTokenResponse {
    pub access_token: Option<String>,
    pub refresh_token: Option<String>,
}

/// Claims to be signed: always an access token, and a refresh token when
/// the flow issues one.
#[derive(Debug, Clone, PartialEq, Eq)]
pub struct TokenPair {
    pub access: TokenClaims,
    pub refresh: Option<TokenClaims>,
}

/// Name fields that an identity provider reported.
#[derive(Debug, Clone, PartialEq, Eq)]
pub struct ProfileHints {
    pub first_name: Option<String>,
    pub last_name: Option<String>,
}

/// Result of a third-party login.
#[derive(Debug, Clone, PartialEq, Eq)]
pub struct OAuthLoginResponse {
    pub access_token: Option<String>,
    pub refresh_token: Option<String>,
    pub profile_hints: ProfileHints,
}

/// The provider's authorization address.
#[derive(Debug, Clone, PartialEq, Eq)]
pub struct OAuthRedirectUriResponse {
    pub redirect_url: String,
}

/// The validation token of a staged flow.
#[derive(Debug, Clone, PartialEq, Eq)]
pub struct ValidationIdResponse {
    pub validation_id: String,
}

} // verus!
