//! Properties that hold across calls of the flows, stated over the
//! contracts of the functions they relate.
use vstd::prelude::*;
use crate::accounts::MongoDB;
use crate::dto::{CreateUserDto, ValidateOtpDto};
use crate::error::{Error, ErrorEnum};
use crate::model::{Account, Staged, TokenPair, TokenClaims, ValidationType};
use crate::otp::{preferred_contact, reset_key, ContactType, RESET_TTL};
use crate::password::{change_verdict, reset_applied, reset_outcome};
use crate::dto::{ChangePasswordDto, ValidateForgotPasswordDto};
use crate::accounts::{conflicts, first_match, passes_filters};
use crate::outside::bcrypt_verdict;
use crate::model::ResetRecord;
use crate::otp::{
    OTP_TTL, OtpDelivery, OtpPolicy, contact_otp_key, issue_outcome, otp_check, otp_outcome, otp_required,
};
use crate::signup::{
    StagedFlow, accepted, complete_outcome, lemma_keys_differ, refused, signup_candidate, stage_outcome,
    validation_key, PENDING_TTL,
};
use crate::store::{Cached, Redis};
use crate::token::{MAX_TIMESTAMP, claims_for, expiry_checked};

verus! {

/// Every stored account has an email or a mobile number.
pub proof fn lemma_accounts_have_contact(db: MongoDB)
    requires
        db.wf(),
    ensures
        forall|i: int|
            0 <= i < db.accounts().len() ==> (#[trigger] db.accounts()[i]).email is Some
                || db.accounts()[i].mobile_number is Some,
{
}

/// A request with neither email nor mobile number is refused with
/// `EmailMobileEmpty` before anything is staged.
pub proof fn lemma_empty_contact_refused(
    before: Redis,
    after: Redis,
    accounts: Seq<Account>,
    data: CreateUserDto,
    vt: ValidationType,
    policy: OtpPolicy,
    hash_cost: u32,
    id: Seq<char>,
    otp: Seq<char>,
    r: Result<StagedFlow, Error>,
)
    requires
        data.email is None,
        data.mobile_number is None,
        stage_outcome(before, after, accounts, data, vt, policy, hash_cost, id, otp, r),
    ensures
        r matches Err(Error::DefinedError(ErrorEnum::EmailMobileEmpty)),
        after == before,
{
}

/// A signup staged under `id` and confirmed at the same clock with the
/// passcode it issued succeeds, provided no stored account holds the
/// request's email or mobile number; the validation token is then spent.
pub proof fn lemma_signup_completes(
    c0: Redis,
    c1: Redis,
    c2: Redis,
    d0: MongoDB,
    d2: MongoDB,
    data: CreateUserDto,
    policy: OtpPolicy,
    hash_cost: u32,
    id: Seq<char>,
    otp: Seq<char>,
    staged: Result<StagedFlow, Error>,
    confirm: ValidateOtpDto,
    r: Result<TokenPair, Error>,
)
    requires
        d0.wf(),
        c0.clock() + PENDING_TTL < u64::MAX,
        forall|j: int|
            0 <= j < d0.accounts().len() ==> (data.email is Some ==> (#[trigger] d0.accounts()[j]).email
                != data.email.deep_view()) && (data.mobile_number is Some ==> d0.accounts()[j].mobile_number
                != data.mobile_number.deep_view()),
        stage_outcome(c0, c1, d0.accounts(), data, ValidationType::Signup, policy, hash_cost, id, otp, staged),
        staged is Ok,
        confirm.validation_id@ == id,
        confirm.otp@ == otp,
        complete_outcome(c1, c2, d0, d2, confirm, policy, r),
    ensures
        r is Ok,
        c2.live(validation_key(id)) is None,
{
    let u = choose|u: Account| signup_candidate(data, u) && accepted(
        c0,
        c1,
        id,
        u,
        ValidationType::Signup,
        policy,
        otp,
        staged->Ok_0,
    );
    lemma_keys_differ(id, preferred_contact(u)->Some_0.0);
    assert(c1.live(validation_key(id)) == Some(
        Cached::Pending(Staged { validation_type: ValidationType::Signup, user: u }),
    ));
    assert(c1.live(contact_otp_key(u)) == Some(Cached::Text(otp)));
    assert(!refused(d0, u));
}

/// Once a confirmation of a validation token has succeeded, confirming the
/// same token again is `InvalidValidationId`, whatever passcode comes with
/// it.
pub proof fn lemma_validation_consumed_once(
    c0: Redis,
    c1: Redis,
    c2: Redis,
    d0: MongoDB,
    d1: MongoDB,
    d2: MongoDB,
    first: ValidateOtpDto,
    second: ValidateOtpDto,
    policy: OtpPolicy,
    policy2: OtpPolicy,
    r1: Result<TokenPair, Error>,
    r2: Result<TokenPair, Error>,
)
    requires
        complete_outcome(c0, c1, d0, d1, first, policy, r1),
        r1 is Ok,
        second.validation_id@ == first.validation_id@,
        complete_outcome(c1, c2, d1, d2, second, policy2, r2),
    ensures
        r2 matches Err(Error::DefinedError(ErrorEnum::InvalidValidationId)),
        c2 == c1,
        d2 == d1,
{
    let vk = validation_key(first.validation_id@);
    match c0.live(vk) {
        Some(Cached::Pending(st)) => {
            assert(c1.stored(vk) is None);
        },
        _ => {},
    }
}

/// A passcode issued for a flow and presented within its lifetime (the
/// clock moved to `now` in between) succeeds once; presented again it fails
/// with `InvalidOTP`.
pub proof fn lemma_otp_single_use(
    c0: Redis,
    c1: Redis,
    c2: Redis,
    c3: Redis,
    c4: Redis,
    u: Account,
    vt: ValidationType,
    policy: OtpPolicy,
    otp: Seq<char>,
    issued: Result<Option<OtpDelivery>, Error>,
    now: u64,
    r1: Result<(), Error>,
    r2: Result<(), Error>,
)
    requires
        issue_outcome(c0, c1, u, vt == ValidationType::Signup || policy.email_login_otp, otp, issued),
        issued matches Ok(Some(_)),
        c0.clock() + OTP_TTL <= u64::MAX,
        c0.clock() <= now < c0.clock() + OTP_TTL,
        c1.advanced(c2, now),
        otp_outcome(c2, c3, u, otp, vt, policy, r1),
        otp_outcome(c3, c4, u, otp, vt, policy, r2),
    ensures
        r1 is Ok,
        r2 matches Err(Error::DefinedError(ErrorEnum::InvalidOTP)),
{
    let k = contact_otp_key(u);
    assert(c2.live(k) == Some(Cached::Text(otp)));
    assert(otp_required(policy, vt, u));
    assert(c3.live(k) is None);
}

/// A passcode presented after its lifetime (the clock moved to `now` in
/// between) fails exactly as a wrong passcode does: with `InvalidOTP`,
/// leaving the store as it was.
pub proof fn lemma_expired_otp_as_unknown(
    c0: Redis,
    c1: Redis,
    c2: Redis,
    c3: Redis,
    u: Account,
    vt: ValidationType,
    policy: OtpPolicy,
    otp: Seq<char>,
    issued: Result<Option<OtpDelivery>, Error>,
    now: u64,
    r: Result<(), Error>,
)
    requires
        issue_outcome(c0, c1, u, vt == ValidationType::Signup || policy.email_login_otp, otp, issued),
        issued matches Ok(Some(_)),
        now >= c0.clock() + OTP_TTL,
        c1.advanced(c2, now),
        otp_outcome(c2, c3, u, otp, vt, policy, r),
    ensures
        r matches Err(Error::DefinedError(ErrorEnum::InvalidOTP)),
        c3 == c2,
        forall|other: Seq<char>|
            other != otp ==> otp_check(policy, vt, u, Some(Cached::Text(other)), otp) == otp_check(
                policy,
                vt,
                u,
                c2.live(contact_otp_key(u)),
                otp,
            ),
{
    let k = contact_otp_key(u);
    assert(c2.live(k) is None);
    assert(otp_required(policy, vt, u));
}

/// Claims issued for an account at `now` and checked at the same clock come
/// back with the account's identifier as subject and an expiry later than
/// `now`.
pub proof fn lemma_issue_then_verify(u: Account, now: u64, pair: TokenPair, r: Result<TokenClaims, Error>)
    requires
        u.id is Some,
        now <= MAX_TIMESTAMP,
        pair.access@ == claims_for(u, now, false),
        expiry_checked(pair.access, now, r),
    ensures
        r matches Ok(c) && c.sub@ == u.id->Some_0 && c.exp > now,
{
}

/// After a password reset by email has been completed, a login by that
/// email with the new password is accepted and staged.
pub proof fn lemma_login_after_reset(
    c0: Redis,
    c1: Redis,
    c2: Redis,
    c3: Redis,
    d0: MongoDB,
    d2: MongoDB,
    email: Seq<char>,
    vid: Seq<char>,
    otp: Seq<char>,
    started: Result<StagedFlow, Error>,
    reset: ValidateForgotPasswordDto,
    hash_cost: u32,
    applied: Result<(), Error>,
    login: CreateUserDto,
    policy: OtpPolicy,
    vid2: Seq<char>,
    otp2: Seq<char>,
    r: Result<StagedFlow, Error>,
)
    requires
        d0.wf(),
        d2.wf(),
        c0.clock() + RESET_TTL < u64::MAX,
        reset_outcome(c0, c1, d0.accounts(), email, vid, otp, started),
        started is Ok,
        reset.validation_id@ == vid,
        reset.otp@ == otp,
        reset_applied(c1, c2, d0, d2, reset, hash_cost, applied),
        applied is Ok,
        login.email.deep_view() == Some(email),
        login.mobile_number is None,
        login.password matches Some(p) && p@ == reset.new_password@,
        stage_outcome(c2, c3, d2.accounts(), login, ValidationType::Login, policy, hash_cost, vid2, otp2, r),
    ensures
        r is Ok,
{
    let s0 = d0.accounts();
    let u = choose|u: Account|
        first_match(s0, u, Some(email), None, None) && (started matches Ok(st) && st.validation_id@ == vid
            && (st.delivery matches Some(d) && d.contact@ == email && d.contact_type
            == ContactType::EMAIL && d.otp@ == otp)) && c0.wrote(
            c1,
            reset_key(vid),
            Cached::PasswordReset(ResetRecord { otp, user_id: u.id->Some_0 }),
            RESET_TTL as int,
        );
    let j0 = choose|j: int|
        0 <= j < s0.len() && s0[j] == u && passes_filters(s0[j], Some(email), None, None)
            && forall|j2: int| 0 <= j2 < j ==> !passes_filters(#[trigger] s0[j2], Some(email), None, None);
    let uid = u.id->Some_0;
    assert(c1.live(reset_key(vid)) == Some(Cached::PasswordReset(ResetRecord { otp, user_id: uid })));
    let s2 = d2.accounts();
    let j = choose|j: int|
        0 <= j < s0.len() && s0[j].id == Some(uid) && (forall|j2: int|
            0 <= j2 < j ==> (#[trigger] s0[j2]).id != Some(uid)) && match change_verdict(
            ChangePasswordDto { current_password: None, new_password: reset.new_password },
            true,
            s0[j],
        ) {
            Some(true) => {
                &&& !(4 <= hash_cost <= 31) ==> applied is Err
                &&& 4 <= hash_cost <= 31 ==> (applied is Ok || applied matches Err(Error::SaltDraw(_)))
                &&& match applied {
                    Ok(()) => exists|h: Seq<char>|
                        bcrypt_verdict(reset.new_password@, h) == Some(true) && s2 == s0.update(
                            j,
                            Account { password: Some(h), ..s0[j] },
                        ),
                    Err(e) => (e is BcryptError || e is SaltDraw) && d2 == d0,
                }
            },
            _ => false,
        };
    assert(j == j0);
    let h = choose|h: Seq<char>|
        bcrypt_verdict(reset.new_password@, h) == Some(true) && s2 == s0.update(
            j,
            Account { password: Some(h), ..s0[j] },
        );
    let a = s2[j0];
    assert(a.email == Some(email));
    assert(a.password == Some(h));
    assert(passes_filters(s2[j0], Some(email), None, None));
    assert forall|i: int| 0 <= i < s2.len() && i != j0 implies !passes_filters(
        #[trigger] s2[i],
        Some(email),
        None,
        None,
    ) by {
        if passes_filters(s2[i], Some(email), None, None) {
            assert(conflicts(s2[i], s2[j0]));
        }
    }
}

} // verus!
