//! Password reset by passcode, and password change by an authenticated
//! account.
use vstd::prelude::*;
use crate::accounts::{MongoDB, first_match};
use crate::dto::{ChangePasswordDto, ValidateForgotPasswordDto};
use crate::error::{Error, ErrorEnum};
use crate::model::{Account, ResetRecord};
use crate::otp::{ContactType, RESET_TTL, otp_code, otp_of, request_forgot_pass_otp, reset_key, validate_forgot_pass_otp};
use crate::outside::{bcrypt_verdict, hash_password, verify_password, uuid_v4_shape, uuid_v4_string, uuid_v4_text};
use crate::signup::{StagedFlow, none_match};
use crate::store::{Cached, Redis};

verus! {

/// The outcome of starting a password reset for `email` under validation
/// token `id` with passcode `otp`.
pub open spec fn reset_outcome(
    before: Redis,
    after: Redis,
    accounts: Seq<Account>,
    email: Seq<char>,
    id: Seq<char>,
    otp: Seq<char>,
    r: Result<StagedFlow, Error>,
) -> bool {
    if none_match(accounts, Some(email), None) {
        r matches Err(Error::DefinedError(ErrorEnum::UserNotFound)) && after == before
    } else {
        exists|u: Account|
            first_match(accounts, u, Some(email), None, None) && (r matches Ok(s) && s.validation_id@ == id
                && (s.delivery matches Some(d) && d.contact@ == email && d.contact_type == ContactType::EMAIL
                && d.otp@ == otp)) && before.wrote(
                after,
                reset_key(id),
                Cached::PasswordReset(ResetRecord { otp, user_id: u.id->Some_0 }),
                RESET_TTL as int,
            )
    }
}

/// Starts a password reset for the account with `email` under
/// `validation_id`: the passcode `otp` is recorded with the account's
/// identifier under the reset's key and handed back for delivery.
pub fn begin_password_reset(
    cache: &mut Redis,
    db: &MongoDB,
    email: &String,
    validation_id: String,
    otp: String,
) -> (r: Result<StagedFlow, Error>)
    requires
        db.wf(),
    ensures
        reset_outcome(*old(cache), *final(cache), db.accounts(), email@, validation_id@, otp@, r),
{
    let user = match db.find_user(&Some(email.clone()), &None, &None) {
        Some(u) => u,
        None => {
            return Err(Error::DefinedError(ErrorEnum::UserNotFound));
        },
    };
    let user_id = match user.id {
        Some(i) => i,
        None => vstd::pervasive::unreached(),
    };
    let d = request_forgot_pass_otp(cache, &validation_id, user_id, email.clone(), otp);
    Ok(StagedFlow { validation_id, delivery: Some(d) })
}

/// Starts a password reset for the account with `email` under the
/// version-4 UUID made from the random bits `token_bits`, with the passcode
/// made from the random bits `otp_bits`.
pub fn initiate_forgot_password(
    cache: &mut Redis,
    db: &MongoDB,
    email: &String,
    token_bits: u128,
    otp_bits: u128,
) -> (r: Result<StagedFlow, Error>)
    requires
        db.wf(),
    ensures
        reset_outcome(*old(cache), *final(cache), db.accounts(), email@, uuid_v4_text(token_bits), otp_of(otp_bits), r),
        r matches Ok(s) ==> uuid_v4_shape(s.validation_id@),
{
    let validation_id = uuid_v4_string(token_bits);
    let otp = otp_code(otp_bits);
    begin_password_reset(cache, db, email, validation_id, otp)
}

/// Whether a password change is authorized for account `u`: always when
/// bypassed, else the current password must match the stored hash; `None`
/// where the hash cannot be read.
pub open spec fn change_verdict(data: ChangePasswordDto, bypass: bool, u: Account) -> Option<bool> {
    if bypass {
        Some(true)
    } else {
        match (data.current_password, u.password) {
            (Some(c), Some(h)) => bcrypt_verdict(c@, h),
            _ => Some(false),
        }
    }
}

/// The outcome of changing the password of the account with identifier
/// `user_id`.
pub open spec fn change_outcome(
    before: MongoDB,
    after: MongoDB,
    user_id: Seq<char>,
    data: ChangePasswordDto,
    bypass: bool,
    hash_cost: u32,
    r: Result<(), Error>,
) -> bool {
    let s = before.accounts();
    if forall|j: int| 0 <= j < s.len() ==> (#[trigger] s[j]).id != Some(user_id) {
        r matches Err(Error::DefinedError(ErrorEnum::UserNotFound)) && after == before
    } else {
        exists|j: int|
            0 <= j < s.len() && s[j].id == Some(user_id) && (forall|j2: int|
                0 <= j2 < j ==> (#[trigger] s[j2]).id != Some(user_id)) && match change_verdict(data, bypass, s[j]) {
                Some(false) => r matches Err(Error::DefinedError(ErrorEnum::PasswordMismatch)) && after == before,
                None => r matches Err(Error::BcryptError(_)) && after == before,
                Some(true) => {
                    &&& !(4 <= hash_cost <= 31) ==> r is Err
                    &&& 4 <= hash_cost <= 31 ==> (r is Ok || r matches Err(Error::SaltDraw(_)))
                    &&& match r {
                        Ok(()) => exists|h: Seq<char>|
                            bcrypt_verdict(data.new_password@, h) == Some(true) && after.accounts() == s.update(
                                j,
                                Account { password: Some(h), ..s[j] },
                            ),
                        Err(e) => (e is BcryptError || e is SaltDraw) && after == before,
                    }
                },
            }
    }
}

/// Changes the password of the account with identifier `user_id` to a
/// hash of `data.new_password`; unless `bypass_pass_check`, the current
/// password must match first.
pub fn change_password(
    db: &mut MongoDB,
    user_id: &String,
    data: ChangePasswordDto,
    bypass_pass_check: bool,
    hash_cost: u32,
) -> (r: Result<(), Error>)
    requires
        old(db).wf(),
    ensures
        final(db).wf(),
        final(db).counter() == old(db).counter(),
        change_outcome(*old(db), *final(db), user_id@, data, bypass_pass_check, hash_cost, r),
{
    let user = match db.find_user(&None, &None, &Some(user_id.clone())) {
        Some(u) => u,
        None => {
            return Err(Error::DefinedError(ErrorEnum::UserNotFound));
        },
    };
    if !bypass_pass_check {
        let ok = match (&data.current_password, &user.password) {
            (Some(c), Some(h)) => match verify_password(c.as_str(), h.as_str()) {
                Ok(b) => b,
                Err(e) => {
                    return Err(Error::BcryptError(e));
                },
            },
            _ => false,
        };
        if !ok {
            return Err(Error::DefinedError(ErrorEnum::PasswordMismatch));
        }
    }
    let hashed = match hash_password(data.new_password.as_str(), hash_cost) {
        Ok(h) => h,
        Err(e) => {
            return Err(Error::from_hash(e));
        },
    };
    let _ = db.update_password(user_id, hashed);
    Ok(())
}

/// The outcome of completing a password reset with `data`.
pub open spec fn reset_applied(
    cache_before: Redis,
    cache_after: Redis,
    db_before: MongoDB,
    db_after: MongoDB,
    data: ValidateForgotPasswordDto,
    hash_cost: u32,
    r: Result<(), Error>,
) -> bool {
    let k = reset_key(data.validation_id@);
    match cache_before.live(k) {
        Some(Cached::PasswordReset(rec)) => if rec.otp == data.otp@ {
            &&& cache_before.removed(cache_after, k)
            &&& change_outcome(
                db_before,
                db_after,
                rec.user_id,
                ChangePasswordDto { current_password: None, new_password: data.new_password },
                true,
                hash_cost,
                r,
            )
        } else {
            &&& r matches Err(Error::DefinedError(ErrorEnum::InvalidOTP))
            &&& cache_after == cache_before
            &&& db_after == db_before
        },
        _ => {
            &&& r matches Err(Error::DefinedError(ErrorEnum::InvalidValidationId))
            &&& cache_after == cache_before
            &&& db_after == db_before
        },
    }
}

/// Completes a password reset: the reset record must be live and its
/// passcode must match; the record is then consumed and the account's
/// password replaced without checking the current one.
pub fn validate_change_password(
    cache: &mut Redis,
    db: &mut MongoDB,
    data: ValidateForgotPasswordDto,
    hash_cost: u32,
) -> (r: Result<(), Error>)
    requires
        old(db).wf(),
    ensures
        final(db).wf(),
        reset_applied(*old(cache), *final(cache), *old(db), *final(db), data, hash_cost, r),
{
    let record = match validate_forgot_pass_otp(cache, &data) {
        Ok(rec) => rec,
        Err(e) => {
            return Err(e);
        },
    };
    change_password(db, &record.user_id, data.into(), true, hash_cost)
}

} // verus!
