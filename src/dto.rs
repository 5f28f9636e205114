//! Request payloads of the flows.
use vstd::prelude::*;
use crate::error::Error;
use crate::outside::{email_accepted, is_valid_email, regex_matches, regex_verdict};

verus! {

/// Completes a password reset: the reset's validation token, the passcode
/// and the new password.
#[derive(Debug, Clone, PartialEq, Eq)]
pub struct ValidateForgotPasswordDto {
    pub validation_id: String,
    pub otp: String,
    pub new_password: String,
}

/// Starts a password reset for an email.
#[derive(Debug, Clone, PartialEq, Eq)]
pub struct ForgotPasswordDto {
    pub email: String,
}

/// Changes a password; the current one is absent where the change is
/// already authorized.
#[derive(Debug, Clone, PartialEq, Eq)]
pub struct ChangePasswordDto {
    pub current_password: Option<String>,
    pub new_password: String,
}

impl From<ValidateForgotPasswordDto> for ChangePasswordDto {
    fn from(value: ValidateForgotPasswordDto) -> (r: Self) {
        ChangePasswordDto { current_password: None, new_password: value.new_password }
    }
}

impl vstd::std_specs::convert::FromSpecImpl<ValidateForgotPasswordDto> for ChangePasswordDto {
    open spec fn obeys_from_spec() -> bool {
        true
    }

    open spec fn from_spec(v: ValidateForgotPasswordDto) -> Self {
        ChangePasswordDto { current_password: None, new_password: v.new_password }
    }
}

/// Exchanges a refresh token for a new access token.
#[derive(Debug, Clone, PartialEq, Eq)]
pub struct RefreshTokenDto {
    pub refresh_token: String,
}

/// Asks for the passcode of a staged flow again.
#[derive(Debug, Clone, PartialEq, Eq)]
pub struct ResendOTPDto {
    pub validation_id: String,
}

/// Signup or login candidate: an email with a password, or a mobile number.
#[derive(Debug, Clone, PartialEq, Eq)]
pub struct CreateUserDto {
    pub email: Option<String>,
    pub mobile_number: Option<String>,
    pub password: Option<String>,
}

/// Confirms a staged flow with its passcode.
#[derive(Debug, Clone, PartialEq, Eq)]
pub struct ValidateOtpDto {
    pub otp: String,
    pub validation_id: String,
}

/// Pattern of an Indian mobile number, with or without country prefix.
pub const MOBILE_REGEX: &'static str = r"^(?:(?:\+|0{0,2})91(\s*[\-]\s*)?|[0]?)?[6789]\d{9}$";

/// A failed whole-request check: a code and a message.
#[derive(Debug, Clone, PartialEq, Eq)]
pub struct ValidationError {
    pub code: String,
    pub message: Option<String>,
}

/// An email needs a password to go with it.
pub open spec fn schema_ok(d: CreateUserDto) -> bool {
    !(d.email is Some && d.password is None)
}

/// A request with an email and no password is refused with `missing_pass`.
pub fn validate_create_user_dto(dto: &CreateUserDto) -> (r: Result<(), ValidationError>)
    ensures
        schema_ok(*dto) <==> r is Ok,
        r matches Err(e) ==> e.code@ == "missing_pass"@ && (e.message matches Some(m) && m@
            == "Password should not be empty"@),
{
    if dto.email.is_some() && dto.password.is_none() {
        return Err(
            ValidationError {
                code: String::from_str("missing_pass"),
                message: Some(String::from_str("Password should not be empty")),
            },
        );
    }
    Ok(())
}

/// A mobile number written without `+` gets the `+91` country prefix.
pub open spec fn sanitized(s: Option<Seq<char>>) -> Option<Seq<char>> {
    match s {
        Some(m) => if m.len() > 0 && m[0] == '+' {
            Some(m)
        } else {
            Some("+91"@ + m)
        },
        None => None,
    }
}

/// Adds the `+91` country prefix to a mobile number written without `+`.
pub fn sanitize_mobile(s: Option<String>) -> (r: Option<String>)
    ensures
        r.deep_view() == sanitized(s.deep_view()),
{
    match s {
        Some(m) => {
            if m.as_str().unicode_len() > 0 && m.as_str().get_char(0) == '+' {
                Some(m)
            } else {
                let mut p = String::from_str("+91");
                p.append(m.as_str());
                Some(p)
            }
        },
        None => None,
    }
}

/// The email, if any, is an address.
pub open spec fn email_ok(d: CreateUserDto) -> bool {
    match d.email {
        Some(e) => email_accepted(e@),
        None => true,
    }
}

/// The mobile number, if any, matches the mobile pattern.
pub open spec fn mobile_ok(d: CreateUserDto) -> bool {
    match d.mobile_number {
        Some(m) => regex_verdict(MOBILE_REGEX@, m@) == Some(true),
        None => true,
    }
}

/// The failures of `d`, one entry per field, in field order.
pub open spec fn failures(d: CreateUserDto) -> Seq<Seq<char>> {
    (if email_ok(d) { Seq::empty() } else { seq!["email: invalid email address"@] })
        + (if mobile_ok(d) { Seq::empty() } else { seq!["mobileNumber: invalid mobile number"@] })
        + (if schema_ok(d) { Seq::empty() } else { seq!["password: Password should not be empty"@] })
}

/// The entries of `parts` separated by `, `.
pub open spec fn joined(parts: Seq<Seq<char>>) -> Seq<char>
    decreases parts.len(),
{
    if parts.len() == 0 {
        Seq::empty()
    } else if parts.len() == 1 {
        parts[0]
    } else {
        joined(parts.drop_last()) + ", "@ + parts.last()
    }
}

impl CreateUserDto {
    /// Checks each field and the request as a whole; every failure is
    /// listed in the `ValidationErrors` description.
    pub fn validate(&self) -> (r: Result<(), Error>)
        ensures
            failures(*self).len() == 0 <==> r is Ok,
            r is Err ==> (r matches Err(Error::ValidationErrors(d)) && d@ == joined(failures(*self))),
    {
        let mut parts: Vec<String> = Vec::new();
        match &self.email {
            Some(e) => {
                if !is_valid_email(e.as_str()) {
                    parts.push(String::from_str("email: invalid email address"));
                }
            },
            None => {},
        }
        match &self.mobile_number {
            Some(m) => {
                if regex_matches(MOBILE_REGEX, m.as_str()) != Some(true) {
                    parts.push(String::from_str("mobileNumber: invalid mobile number"));
                }
            },
            None => {},
        }
        if validate_create_user_dto(self).is_err() {
            parts.push(String::from_str("password: Password should not be empty"));
        }
        assert(parts.deep_view() =~= failures(*self));
        if parts.len() == 0 {
            return Ok(());
        }
        let ghost ps = parts.deep_view();
        let mut d = parts[0].clone();
        let mut i: usize = 1;
        assert(ps.subrange(0, 1).drop_last() =~= Seq::<Seq<char>>::empty());
        while i < parts.len()
            invariant
                1 <= i <= parts.len(),
                ps == parts.deep_view(),
                d@ == joined(ps.subrange(0, i as int)),
            decreases parts.len() - i,
        {
            d.append(", ");
            d.append(parts[i].as_str());
            assert(ps.subrange(0, i + 1).drop_last() =~= ps.subrange(0, i as int));
            i = i + 1;
        }
        assert(ps.subrange(0, parts.len() as int) =~= ps);
        Err(Error::ValidationErrors(d))
    }
}

} // verus!
