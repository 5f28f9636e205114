//! The signup/login state machine: a request is checked against the
//! account store, its identity is staged in the ephemeral store under a
//! fresh validation token, a passcode is issued, and the passcode turns the
//! staged identity into a persisted account or an authenticated session.
use vstd::prelude::*;
use crate::accounts::{MongoDB, first_conflict, first_match, passes_filters, conflicts, ID_WIDTH};
use crate::dto::{CreateUserDto, ValidateOtpDto};
use crate::error::{Error, ErrorEnum};
use crate::model::{Account, Staged, UserModel, ValidationData, ValidationType, TokenPair, copy_text};
use crate::otp::{
    ContactType, OtpDelivery, OtpPolicy, OTP_TTL, contact_otp_key, otp_check, otp_key, otp_of, otp_code,
    preferred_contact, issue_outcome, request_login_otp, validate_otp,
};
use crate::outside::{bcrypt_verdict, hash_password, verify_password, uuid_v4_shape, uuid_v4_string, uuid_v4_text};
use crate::store::{Cached, CacheValue, Redis, expiry_after};
use crate::text::padded_digits;
use crate::token::{MAX_TIMESTAMP, claims_for, create_token};

verus! {

/// Lifetime of a staged identity, in seconds.
pub const PENDING_TTL: usize = 900;

/// Key of the identity staged under a validation token.
pub open spec fn validation_key(id: Seq<char>) -> Seq<char> {
    "validation_"@ + id
}

pub fn make_validation_key(id: &String) -> (r: String)
    ensures
        r@ == validation_key(id@),
{
    let mut r = String::from_str("validation_");
    r.append(id.as_str());
    r
}

/// A staging key and a passcode key never coincide.
pub proof fn lemma_keys_differ(id: Seq<char>, contact: Seq<char>)
    ensures
        validation_key(id) != otp_key(contact),
{
    reveal_strlit("validation_");
    reveal_strlit("otp_");
    assert(validation_key(id)[0] == 'v');
    assert(otp_key(contact)[0] == 'o');
}

/// A staged flow: its validation token, and the passcode to deliver where
/// one was issued.
#[derive(Debug, Clone, PartialEq, Eq)]
pub struct StagedFlow {
    pub validation_id: String,
    pub delivery: Option<OtpDelivery>,
}

/// An email receives a passcode for a signup, or for a login where the
/// policy asks for one.
pub open spec fn email_otp_due(policy: OtpPolicy, vt: ValidationType) -> bool {
    vt == ValidationType::Signup || policy.email_login_otp
}

/// A passcode is issued to the preferred contact when it is a mobile
/// number, or when an email one is due.
pub open spec fn otp_issued(policy: OtpPolicy, vt: ValidationType, u: Account) -> bool {
    match preferred_contact(u) {
        Some((_, t)) => t == ContactType::MOBILE || email_otp_due(policy, vt),
        None => false,
    }
}

/// `after` is `before` with `u` staged under `id` for fifteen minutes and,
/// where a passcode is issued, `otp` stored under the contact's key for
/// five minutes.
pub open spec fn staged(before: Redis, after: Redis, id: Seq<char>, u: Account, vt: ValidationType, policy: OtpPolicy, otp: Seq<char>) -> bool {
    let vk = validation_key(id);
    let ok = contact_otp_key(u);
    let issued = otp_issued(policy, vt, u);
    &&& after.clock() == before.clock()
    &&& after.stored(vk) == Some((
        Cached::Pending(Staged { validation_type: vt, user: u }),
        expiry_after(before.clock(), PENDING_TTL as int),
    ))
    &&& issued ==> after.stored(ok) == Some((Cached::Text(otp), expiry_after(before.clock(), OTP_TTL as int)))
    &&& forall|k: Seq<char>| k != vk && (!issued || k != ok) ==> after.stored(k) == before.stored(k)
}

/// The result of a staging that succeeded for identity `u`.
pub open spec fn accepted(before: Redis, after: Redis, id: Seq<char>, u: Account, vt: ValidationType, policy: OtpPolicy, otp: Seq<char>, s: StagedFlow) -> bool {
    &&& s.validation_id@ == id
    &&& staged(before, after, id, u, vt, policy, otp)
    &&& otp_issued(policy, vt, u) ==> (s.delivery matches Some(d) && preferred_contact(u) == Some((d.contact@, d.contact_type)) && d.otp@ == otp)
    &&& !otp_issued(policy, vt, u) ==> s.delivery is None
}

/// The candidate account that a signup stages: no identifier yet, the
/// request's contacts, the default role, and a hash of the password.
pub open spec fn signup_candidate(data: CreateUserDto, u: Account) -> bool {
    &&& u.id is None
    &&& u.email == data.email.deep_view()
    &&& u.mobile_number == data.mobile_number.deep_view()
    &&& u.roles == seq!["default"@]
    &&& match data.password {
        Some(p) => u.password matches Some(h) && bcrypt_verdict(p@, h) == Some(true),
        None => u.password is None,
    }
}

/// Whether a login request proves possession of account `u`: a mobile
/// login defers to the passcode; an email login needs the password to
/// match the stored hash. `None` where the hash cannot be read.
pub open spec fn login_verdict(data: CreateUserDto, u: Account) -> Option<bool> {
    if data.mobile_number is Some {
        Some(true)
    } else if data.email is Some {
        match (data.password, u.password) {
            (Some(p), Some(h)) => bcrypt_verdict(p@, h),
            _ => Some(false),
        }
    } else {
        Some(false)
    }
}

/// No stored account passes the filters.
pub open spec fn none_match(s: Seq<Account>, email: Option<Seq<char>>, mobile: Option<Seq<char>>) -> bool {
    forall|j: int| 0 <= j < s.len() ==> !passes_filters(#[trigger] s[j], email, mobile, None)
}

/// The outcome of staging `data` for flow `vt` under validation token `id`
/// with passcode `otp`.
pub open spec fn stage_outcome(
    before: Redis,
    after: Redis,
    accounts: Seq<Account>,
    data: CreateUserDto,
    vt: ValidationType,
    policy: OtpPolicy,
    hash_cost: u32,
    id: Seq<char>,
    otp: Seq<char>,
    r: Result<StagedFlow, Error>,
) -> bool {
    let e = data.email.deep_view();
    let m = data.mobile_number.deep_view();
    if e is None && m is None {
        r matches Err(Error::DefinedError(ErrorEnum::EmailMobileEmpty)) && after == before
    } else if none_match(accounts, e, m) {
        if vt == ValidationType::Login {
            r matches Err(Error::DefinedError(ErrorEnum::UserNotFound)) && after == before
        } else {
            &&& data.password is None ==> r is Ok
            &&& 4 <= hash_cost <= 31 ==> (r is Ok || r matches Err(Error::SaltDraw(_)))
            &&& match r {
                Ok(s) => exists|u: Account| signup_candidate(data, u) && accepted(before, after, id, u, vt, policy, otp, s),
                Err(err) => (err is BcryptError || err is SaltDraw) && data.password is Some && after == before,
            }
        }
    } else {
        exists|u: Account|
            first_match(accounts, u, e, m, None) && if vt == ValidationType::Signup {
                r matches Err(Error::DefinedError(ErrorEnum::UserAlreadyExists(x))) && x@ == u && after == before
            } else {
                match login_verdict(data, u) {
                    Some(true) => r matches Ok(s) && accepted(before, after, id, u, vt, policy, otp, s),
                    Some(false) => r matches Err(Error::DefinedError(ErrorEnum::PasswordMismatch)) && after == before,
                    None => r matches Err(Error::BcryptError(_)) && after == before,
                }
            }
    }
}

/// The candidate account for a signup, with its password hashed at
/// `hash_cost`.
pub fn parse_user(data: &CreateUserDto, hash_cost: u32) -> (r: Result<UserModel, Error>)
    ensures
        r matches Ok(u) ==> signup_candidate(*data, u@),
        r matches Err(e) ==> (e is BcryptError || e is SaltDraw) && data.password is Some,
        data.password is None ==> r is Ok,
        data.password is Some && !(4 <= hash_cost <= 31) ==> r is Err,
        4 <= hash_cost <= 31 ==> (r is Ok || r matches Err(Error::SaltDraw(_))),
{
    let hashed = match &data.password {
        Some(p) => match hash_password(p.as_str(), hash_cost) {
            Ok(h) => Some(h),
            Err(e) => {
                return Err(Error::from_hash(e));
            },
        },
        None => None,
    };
    let roles = vec![String::from_str("default")];
    let u = UserModel {
        id: None,
        email: copy_text(&data.email),
        mobile_number: copy_text(&data.mobile_number),
        password: hashed,
        roles,
    };
    assert(u@.roles =~= seq!["default"@]);
    Ok(u)
}

/// Checks a login request against the account it names.
pub fn parse_and_validate_user(data: &CreateUserDto, existing: UserModel) -> (r: Result<UserModel, Error>)
    ensures
        login_verdict(*data, existing@) == Some(true) ==> (r matches Ok(u) && u@ == existing@),
        login_verdict(*data, existing@) == Some(false) ==> r matches Err(Error::DefinedError(ErrorEnum::PasswordMismatch)),
        login_verdict(*data, existing@) is None ==> r matches Err(Error::BcryptError(_)),
{
    if data.mobile_number.is_some() {
        return Ok(existing);
    }
    if data.email.is_some() {
        match (&data.password, &existing.password) {
            (Some(p), Some(h)) => match verify_password(p.as_str(), h.as_str()) {
                Ok(true) => {
                    return Ok(existing);
                },
                Ok(false) => {},
                Err(e) => {
                    return Err(Error::BcryptError(e));
                },
            },
            _ => {},
        }
    }
    Err(Error::DefinedError(ErrorEnum::PasswordMismatch))
}

/// Stages `data` for flow `validation_type` under `validation_id`, issuing
/// `otp` where a passcode is due.
pub fn stage_flow(
    cache: &mut Redis,
    db: &MongoDB,
    data: CreateUserDto,
    validation_type: ValidationType,
    policy: OtpPolicy,
    hash_cost: u32,
    validation_id: String,
    otp: String,
) -> (r: Result<StagedFlow, Error>)
    requires
        db.wf(),
    ensures
        stage_outcome(*old(cache), *final(cache), db.accounts(), data, validation_type, policy, hash_cost, validation_id@, otp@, r),
{
    if data.email.is_none() && data.mobile_number.is_none() {
        return Err(Error::DefinedError(ErrorEnum::EmailMobileEmpty));
    }
    let user = db.find_user(&data.email, &data.mobile_number, &None);
    let parsed = match validation_type {
        ValidationType::Login => match user {
            None => {
                return Err(Error::DefinedError(ErrorEnum::UserNotFound));
            },
            Some(u) => parse_and_validate_user(&data, u),
        },
        ValidationType::Signup => match user {
            Some(u) => {
                return Err(Error::DefinedError(ErrorEnum::UserAlreadyExists(u)));
            },
            None => parse_user(&data, hash_cost),
        },
    };
    let parsed = match parsed {
        Ok(p) => p,
        Err(e) => {
            return Err(e);
        },
    };
    let ghost u = parsed@;
    let ghost before = *cache;
    let record = ValidationData { validation_type, user: parsed.duplicate() };
    let key = make_validation_key(&validation_id);
    // The lifetime is positive, so the write is not refused.
    let _ = cache.set_value(key, PENDING_TTL, CacheValue::Pending(record));
    // A failed issuance is not the caller's failure: the staged identity
    // stays usable and the passcode can be issued again.
    let email_otp = validation_type == ValidationType::Signup || policy.email_login_otp;
    let delivery = match request_login_otp(cache, &parsed, email_otp, otp) {
        Ok(d) => d,
        Err(_) => None,
    };
    proof {
        lemma_keys_differ(validation_id@, preferred_contact(u)->Some_0.0);
    }
    let s = StagedFlow { validation_id, delivery };
    assert(accepted(before, *cache, validation_id@, u, validation_type, policy, otp@, s));
    Ok(s)
}

/// Stages `data` for flow `validation_type` under the version-4 UUID made
/// from the random bits `token_bits`, issuing the passcode made from the
/// random bits `otp_bits` where one is due.
pub fn create_temp_user(
    cache: &mut Redis,
    db: &MongoDB,
    data: CreateUserDto,
    validation_type: ValidationType,
    policy: OtpPolicy,
    hash_cost: u32,
    token_bits: u128,
    otp_bits: u128,
) -> (r: Result<StagedFlow, Error>)
    requires
        db.wf(),
    ensures
        stage_outcome(
            *old(cache),
            *final(cache),
            db.accounts(),
            data,
            validation_type,
            policy,
            hash_cost,
            uuid_v4_text(token_bits),
            otp_of(otp_bits),
            r,
        ),
        r matches Ok(s) ==> uuid_v4_shape(s.validation_id@),
{
    let validation_id = uuid_v4_string(token_bits);
    let otp = otp_code(otp_bits);
    stage_flow(cache, db, data, validation_type, policy, hash_cost, validation_id, otp)
}

/// `p` holds the access and refresh claims issued for `u` at `now`.
pub open spec fn issued_for(p: TokenPair, u: Account, now: u64) -> bool {
    &&& p.access@ == claims_for(u, now, false)
    &&& p.refresh matches Some(c) && c@ == claims_for(u, now, true)
}

/// The account that `db` creates next from candidate `u`.
pub open spec fn created_from(db: MongoDB, u: Account) -> Account {
    Account { id: Some(padded_digits(db.counter() as nat, ID_WIDTH as nat)), ..u }
}

/// The store refuses to create `u`: it has no contact, or a stored account
/// already holds one of its contacts.
pub open spec fn refused(db: MongoDB, u: Account) -> bool {
    ||| (u.email is None && u.mobile_number is None)
    ||| exists|j: int| 0 <= j < db.accounts().len() && conflicts(db.accounts()[j], u)
}

/// `r` reports why the store refuses `u`: `EmailMobileEmpty` without a
/// contact, else `UserAlreadyExists` with the first account that holds one
/// of its contacts.
pub open spec fn refusal<T>(db: MongoDB, u: Account, r: Result<T, Error>) -> bool {
    &&& (u.email is None && u.mobile_number is None) ==> (r matches Err(Error::DefinedError(ErrorEnum::EmailMobileEmpty)))
    &&& !(u.email is None && u.mobile_number is None) && r is Err ==> (r matches Err(
        Error::DefinedError(ErrorEnum::UserAlreadyExists(x)),
    ) && first_conflict(db.accounts(), u, x@))
}

/// Persists candidate `u`, adopting the identifier that the store assigns.
pub fn insert_user(db: &mut MongoDB, user: UserModel) -> (r: Result<UserModel, Error>)
    requires
        old(db).wf(),
        old(db).counter() < u64::MAX,
    ensures
        final(db).wf(),
        refused(*old(db), user@) <==> r is Err,
        refusal(*old(db), user@, r),
        r is Err ==> *final(db) == *old(db),
        r matches Ok(u) ==> {
            &&& u@ == created_from(*old(db), user@)
            &&& final(db).accounts() == old(db).accounts().push(u@)
            &&& final(db).counter() == old(db).counter() + 1
        },
{
    let email = copy_text(&user.email);
    let mobile_number = copy_text(&user.mobile_number);
    let password = copy_text(&user.password);
    let roles = crate::model::copy_texts(&user.roles);
    match db.create_user(user) {
        Ok(id) => Ok(UserModel { id: Some(id), email, mobile_number, password, roles }),
        Err(e) => Err(e),
    }
}

/// The outcome of materializing a confirmed signup of `u` at `now`.
pub open spec fn signup_materialized(before: MongoDB, after: MongoDB, u: Account, now: u64, r: Result<TokenPair, Error>) -> bool {
    let created = created_from(before, u);
    &&& refused(before, u) ==> (r is Err && refusal(before, u, r) && after == before)
    &&& !refused(before, u) ==> (r matches Ok(p) && issued_for(p, created, now))
    &&& !refused(before, u) ==> after.accounts() == before.accounts().push(created) && after.counter() == before.counter() + 1
}

/// The outcome of confirming the flow staged under `data.validation_id`
/// with passcode `data.otp`.
pub open spec fn complete_outcome(
    cache_before: Redis,
    cache_after: Redis,
    db_before: MongoDB,
    db_after: MongoDB,
    data: ValidateOtpDto,
    policy: OtpPolicy,
    r: Result<TokenPair, Error>,
) -> bool {
    let vk = validation_key(data.validation_id@);
    match cache_before.live(vk) {
        Some(Cached::Pending(st)) => {
            let u = st.user;
            match otp_check(policy, st.validation_type, u, cache_before.live(contact_otp_key(u)), data.otp@) {
                Err(e) => r matches Err(Error::DefinedError(x)) && x == e && cache_after == cache_before
                    && db_after == db_before,
                Ok(()) => {
                    &&& cache_before.removed_both(cache_after, contact_otp_key(u), vk)
                    &&& if st.validation_type == ValidationType::Signup {
                        signup_materialized(db_before, db_after, u, cache_before.clock(), r)
                    } else {
                        &&& db_after == db_before
                        &&& u.id is Some ==> (r matches Ok(p) && issued_for(p, u, cache_before.clock()))
                        &&& u.id is None ==> r matches Err(Error::DefinedError(ErrorEnum::UnAuthorized))
                    }
                },
            }
        },
        _ => r matches Err(Error::DefinedError(ErrorEnum::InvalidValidationId)) && cache_after == cache_before
            && db_after == db_before,
    }
}

/// Confirms a staged flow: the staged identity must be live and the
/// passcode must check out; the staged identity and the passcode are then
/// consumed, a signup's account is persisted, and token claims are issued
/// at the store's clock.
pub fn validate_by_validation_id(
    cache: &mut Redis,
    db: &mut MongoDB,
    data: &ValidateOtpDto,
    policy: OtpPolicy,
) -> (r: Result<TokenPair, Error>)
    requires
        old(db).wf(),
        old(db).counter() < u64::MAX,
        old(cache).clock() <= MAX_TIMESTAMP,
    ensures
        final(db).wf(),
        final(cache).clock() == old(cache).clock(),
        complete_outcome(*old(cache), *final(cache), *old(db), *final(db), *data, policy, r),
{
    let key = make_validation_key(&data.validation_id);
    let d = match cache.get_value(&key) {
        Ok(CacheValue::Pending(d)) => d,
        _ => {
            return Err(Error::DefinedError(ErrorEnum::InvalidValidationId));
        },
    };
    proof {
        lemma_keys_differ(data.validation_id@, preferred_contact(d.user@)->Some_0.0);
    }
    match validate_otp(cache, &d.user, &data.otp, d.validation_type, policy) {
        Ok(()) => {},
        Err(e) => {
            return Err(e);
        },
    }
    match cache.take(&key) {
        Some(_) => {},
        None => {
            return Err(Error::DefinedError(ErrorEnum::InvalidValidationId));
        },
    }
    let now = cache.now();
    let user = if d.validation_type == ValidationType::Signup {
        match insert_user(db, d.user) {
            Ok(u) => u,
            Err(e) => {
                return Err(e);
            },
        }
    } else {
        d.user
    };
    match &user.id {
        Some(_) => Ok(create_token(&user, now)),
        None => Err(Error::DefinedError(ErrorEnum::UnAuthorized)),
    }
}

/// The outcome of issuing passcode `otp` again for the flow staged under
/// `validation_id`; the staged identity itself is left as it was.
pub open spec fn resend_outcome(
    before: Redis,
    after: Redis,
    validation_id: Seq<char>,
    policy: OtpPolicy,
    otp: Seq<char>,
    r: Result<Option<OtpDelivery>, Error>,
) -> bool {
    match before.live(validation_key(validation_id)) {
        Some(Cached::Pending(st)) => issue_outcome(
            before,
            after,
            st.user,
            email_otp_due(policy, st.validation_type),
            otp,
            r,
        ),
        _ => r matches Err(Error::DefinedError(ErrorEnum::InvalidValidationId)) && after == before,
    }
}

/// Issues passcode `otp` again for the flow staged under `validation_id`.
pub fn reissue_otp(
    cache: &mut Redis,
    validation_id: &String,
    policy: OtpPolicy,
    otp: String,
) -> (r: Result<Option<OtpDelivery>, Error>)
    ensures
        resend_outcome(*old(cache), *final(cache), validation_id@, policy, otp@, r),
{
    let key = make_validation_key(validation_id);
    let d = match cache.get_value(&key) {
        Ok(CacheValue::Pending(d)) => d,
        _ => {
            return Err(Error::DefinedError(ErrorEnum::InvalidValidationId));
        },
    };
    let email_otp = d.validation_type == ValidationType::Signup || policy.email_login_otp;
    request_login_otp(cache, &d.user, email_otp, otp)
}

/// Issues the passcode made from the random bits `otp_bits` for the flow
/// staged under `validation_id`.
pub fn generate_and_resend_otp(
    cache: &mut Redis,
    validation_id: &String,
    policy: OtpPolicy,
    otp_bits: u128,
) -> (r: Result<Option<OtpDelivery>, Error>)
    ensures
        resend_outcome(*old(cache), *final(cache), validation_id@, policy, otp_of(otp_bits), r),
{
    let otp = otp_code(otp_bits);
    reissue_otp(cache, validation_id, policy, otp)
}

} // verus!
