//! One-time passcodes: issuing them under the key of a contact or of a
//! password reset, deciding when one is required, and checking them once.
use vstd::prelude::*;
use crate::dto::ValidateForgotPasswordDto;
use crate::error::{Error, ErrorEnum};
use crate::model::{Account, ChangePasswordValidationData, ResetRecord, UserModel, ValidationType};
use crate::store::{Cached, CacheValue, Redis};
use crate::text::{padded_decimal, padded_digits};

verus! {

/// Lifetime of a login or signup passcode, in seconds.
pub const OTP_TTL: usize = 300;

/// Lifetime of a password-reset record, in seconds.
pub const RESET_TTL: usize = 900;

/// Number of digits of a passcode.
pub const OTP_DIGITS: usize = 6;

/// The channel a passcode travels by.
#[derive(Debug, Clone, Copy, PartialEq, Eq, Structural)]
pub enum ContactType {
    EMAIL,
    MOBILE,
}

/// The channel's name as the delivery service expects it.
pub fn get_otp_type(contact_type: ContactType) -> (r: String)
    ensures
        r@ == (match contact_type {
            ContactType::EMAIL => "EMAIL"@,
            ContactType::MOBILE => "MOBILE"@,
        }),
{
    match contact_type {
        ContactType::EMAIL => String::from_str("EMAIL"),
        ContactType::MOBILE => String::from_str("MOBILE"),
    }
}

/// A passcode to be sent to a contact address.
#[derive(Debug, Clone, PartialEq, Eq)]
pub struct OtpDelivery {
    pub contact: String,
    pub contact_type: ContactType,
    pub otp: String,
}

/// The passcode made from a random value: its last six decimal digits,
/// leading zeros kept.
pub open spec fn otp_of(seed: u128) -> Seq<char> {
    padded_digits((seed % 1000000) as nat, OTP_DIGITS as nat)
}

/// The passcode made from the random value `seed`.
pub fn otp_code(seed: u128) -> (r: String)
    ensures
        r@ == otp_of(seed),
        r@.len() == OTP_DIGITS,
{
    let n = (seed % 1000000) as u64;
    let r = padded_decimal(n, OTP_DIGITS);
    proof {
        lemma_padded_len(n as nat, OTP_DIGITS as nat);
    }
    r
}

pub proof fn lemma_padded_len(n: nat, width: nat)
    ensures
        padded_digits(n, width).len() == width,
    decreases width,
{
    if width > 0 {
        lemma_padded_len(n / 10, (width - 1) as nat);
    }
}

/// Key of the passcode issued to a contact address.
pub open spec fn otp_key(contact: Seq<char>) -> Seq<char> {
    "otp_"@ + contact
}

/// Key of a password-reset record.
pub open spec fn reset_key(validation_id: Seq<char>) -> Seq<char> {
    "change_password_"@ + validation_id
}

pub fn make_otp_key(contact: &String) -> (r: String)
    ensures
        r@ == otp_key(contact@),
{
    let mut r = String::from_str("otp_");
    r.append(contact.as_str());
    r
}

pub fn make_reset_key(validation_id: &String) -> (r: String)
    ensures
        r@ == reset_key(validation_id@),
{
    let mut r = String::from_str("change_password_");
    r.append(validation_id.as_str());
    r
}

/// The address a passcode goes to: the mobile number where there is one,
/// else the email.
pub open spec fn preferred_contact(u: Account) -> Option<(Seq<char>, ContactType)> {
    match u.mobile_number {
        Some(m) => Some((m, ContactType::MOBILE)),
        None => match u.email {
            Some(e) => Some((e, ContactType::EMAIL)),
            None => None,
        },
    }
}

/// Key of the passcode issued to the preferred contact of `u`.
pub open spec fn contact_otp_key(u: Account) -> Seq<char> {
    match preferred_contact(u) {
        Some(p) => otp_key(p.0),
        None => Seq::empty(),
    }
}

fn contact_of(user: &UserModel) -> (r: Option<(String, ContactType)>)
    ensures
        match r {
            Some((c, t)) => preferred_contact(user@) == Some((c@, t)),
            None => preferred_contact(user@) is None,
        },
{
    match &user.mobile_number {
        Some(m) => Some((m.clone(), ContactType::MOBILE)),
        None => match &user.email {
            Some(e) => Some((e.clone(), ContactType::EMAIL)),
            None => None,
        },
    }
}

/// Whether an email-only login is confirmed by a passcode. Signups and
/// accounts with a mobile number always are.
#[derive(Debug, Clone, Copy, PartialEq, Eq, Structural)]
pub struct OtpPolicy {
    pub email_login_otp: bool,
}

/// A passcode is required for account creation, wherever a mobile number
/// exists, and for an email-only login where the policy asks for it.
pub open spec fn otp_required(policy: OtpPolicy, validation_type: ValidationType, u: Account) -> bool {
    validation_type == ValidationType::Signup || u.mobile_number is Some || policy.email_login_otp
}

pub fn should_validate_otp(validation_type: ValidationType, user: &UserModel, policy: OtpPolicy) -> (r: bool)
    ensures
        r == otp_required(policy, validation_type, user@),
{
    if validation_type == ValidationType::Signup {
        return true;
    }
    user.mobile_number.is_some() || policy.email_login_otp
}

/// The outcome of issuing passcode `otp` to the preferred contact of `u`.
pub open spec fn issue_outcome(
    before: Redis,
    after: Redis,
    u: Account,
    require_email_otp: bool,
    otp: Seq<char>,
    r: Result<Option<OtpDelivery>, Error>,
) -> bool {
    match preferred_contact(u) {
        None => {
            &&& r matches Err(Error::DefinedError(ErrorEnum::UserContactMissing))
            &&& after == before
        },
        Some((c, t)) => if t == ContactType::MOBILE || require_email_otp {
            &&& r matches Ok(Some(d)) && d.contact@ == c && d.contact_type == t && d.otp@ == otp
            &&& before.wrote(after, otp_key(c), Cached::Text(otp), OTP_TTL as int)
        } else {
            &&& r matches Ok(None)
            &&& after == before
        },
    }
}

/// Issues the passcode `otp` for a login or signup: it is stored under the
/// key of the preferred contact for five minutes and handed back for
/// delivery, where the contact is a mobile number or `require_email_otp`
/// holds; otherwise nothing is stored or sent.
pub fn request_login_otp(
    cache: &mut Redis,
    user: &UserModel,
    require_email_otp: bool,
    otp: String,
) -> (r: Result<Option<OtpDelivery>, Error>)
    ensures
        issue_outcome(*old(cache), *final(cache), user@, require_email_otp, otp@, r),
{
    let (contact, contact_type) = match contact_of(user) {
        Some(p) => p,
        None => {
            return Err(Error::DefinedError(ErrorEnum::UserContactMissing));
        },
    };
    if contact_type == ContactType::MOBILE || require_email_otp {
        let key = make_otp_key(&contact);
        let code = otp.clone();
        let _ = cache.set_ex(key, OTP_TTL, code);
        Ok(Some(OtpDelivery { contact, contact_type, otp }))
    } else {
        Ok(None)
    }
}

/// The outcome of checking `supplied` for a staged flow: the contact must
/// exist; where a passcode is required, the live one under the contact's
/// key must equal it, and a missing or expired one fails exactly as a
/// wrong one does.
pub open spec fn otp_check(
    policy: OtpPolicy,
    validation_type: ValidationType,
    u: Account,
    live: Option<Cached>,
    supplied: Seq<char>,
) -> Result<(), ErrorEnum> {
    match preferred_contact(u) {
        None => Err(ErrorEnum::UserContactMissing),
        Some(_) => if !otp_required(policy, validation_type, u) || live == Some(Cached::Text(supplied)) {
            Ok(())
        } else {
            Err(ErrorEnum::InvalidOTP)
        },
    }
}

/// `r` reports the domain error `e`, or success where `e` is success.
pub open spec fn reports(r: Result<(), Error>, e: Result<(), ErrorEnum>) -> bool {
    match e {
        Ok(()) => r is Ok,
        Err(d) => r matches Err(Error::DefinedError(d2)) && d2 == d,
    }
}

/// The outcome of checking passcode `supplied` for a flow of kind `vt`
/// staged for `u`: the check's verdict is reported, and on success the
/// stored passcode is removed.
pub open spec fn otp_outcome(
    before: Redis,
    after: Redis,
    u: Account,
    supplied: Seq<char>,
    vt: ValidationType,
    policy: OtpPolicy,
    r: Result<(), Error>,
) -> bool {
    let check = otp_check(policy, vt, u, before.live(contact_otp_key(u)), supplied);
    &&& reports(r, check)
    &&& check is Ok ==> before.removed(after, contact_otp_key(u))
    &&& check is Err ==> after == before
}

/// Checks the passcode `otp` of a staged flow and, on success, removes the
/// stored passcode so that it cannot be used again.
pub fn validate_otp(
    cache: &mut Redis,
    user: &UserModel,
    otp: &String,
    validation_type: ValidationType,
    policy: OtpPolicy,
) -> (r: Result<(), Error>)
    ensures
        otp_outcome(*old(cache), *final(cache), user@, otp@, validation_type, policy, r),
{
    let contact = match contact_of(user) {
        Some((c, _)) => c,
        None => {
            return Err(Error::DefinedError(ErrorEnum::UserContactMissing));
        },
    };
    let key = make_otp_key(&contact);
    let fetched = cache.get(&key);
    if should_validate_otp(validation_type, user, policy) {
        let ok = match &fetched {
            Some(f) => *f == *otp,
            None => false,
        };
        if !ok {
            return Err(Error::DefinedError(ErrorEnum::InvalidOTP));
        }
    }
    let _ = cache.del(&key);
    Ok(())
}

/// Issues the passcode `otp` for a password reset: the record {otp,
/// user_id} is stored under the reset's key for fifteen minutes and the
/// passcode is handed back for delivery to `email`.
pub fn request_forgot_pass_otp(
    cache: &mut Redis,
    validation_id: &String,
    user_id: String,
    email: String,
    otp: String,
) -> (r: OtpDelivery)
    ensures
        r.contact@ == email@,
        r.contact_type == ContactType::EMAIL,
        r.otp@ == otp@,
        old(cache).wrote(
            *final(cache),
            reset_key(validation_id@),
            Cached::PasswordReset(ResetRecord { otp: otp@, user_id: user_id@ }),
            RESET_TTL as int,
        ),
{
    let key = make_reset_key(validation_id);
    let record = ChangePasswordValidationData { otp: otp.clone(), user_id };
    let _ = cache.set_value(key, RESET_TTL, CacheValue::PasswordReset(record));
    OtpDelivery { contact: email, contact_type: ContactType::EMAIL, otp }
}

/// Checks the passcode of a password reset. An absent or expired record is
/// `InvalidValidationId`; a wrong passcode is `InvalidOTP` and leaves the
/// record in place; the right one consumes the record and hands it back.
pub fn validate_forgot_pass_otp(cache: &mut Redis, data: &ValidateForgotPasswordDto) -> (r: Result<
    ChangePasswordValidationData,
    Error,
>)
    ensures
        ({
            let k = reset_key(data.validation_id@);
            match old(cache).live(k) {
                Some(Cached::PasswordReset(rec)) => if rec.otp == data.otp@ {
                    &&& r matches Ok(d) && d@ == rec
                    &&& old(cache).removed(*final(cache), k)
                } else {
                    &&& r matches Err(Error::DefinedError(ErrorEnum::InvalidOTP))
                    &&& *final(cache) == *old(cache)
                },
                _ => {
                    &&& r matches Err(Error::DefinedError(ErrorEnum::InvalidValidationId))
                    &&& *final(cache) == *old(cache)
                },
            }
        }),
{
    let key = make_reset_key(&data.validation_id);
    let record = match cache.get_value(&key) {
        Ok(CacheValue::PasswordReset(d)) => d,
        _ => {
            return Err(Error::DefinedError(ErrorEnum::InvalidValidationId));
        },
    };
    if data.otp != record.otp {
        return Err(Error::DefinedError(ErrorEnum::InvalidOTP));
    }
    let _ = cache.del(&key);
    Ok(record)
}

} // verus!
