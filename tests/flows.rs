use greenie_auth::accounts::MongoDB;
use greenie_auth::dto::{CreateUserDto, ValidateForgotPasswordDto, ValidateOtpDto};
use greenie_auth::error::{Error, ErrorEnum};
use greenie_auth::model::{UserModel, ValidationType};
use greenie_auth::otp::{make_otp_key, validate_otp, ContactType, OtpPolicy};
use greenie_auth::password::{change_password, initiate_forgot_password, validate_change_password};
use greenie_auth::signup::{
    create_temp_user, generate_and_resend_otp, make_validation_key, stage_flow, validate_by_validation_id,
};
use greenie_auth::store::Redis;

const COST: u32 = 4;

fn bits() -> u128 {
    uuid::Uuid::new_v4().as_u128()
}
const POLICY: OtpPolicy = OtpPolicy { email_login_otp: false };

fn email_dto(email: &str, password: Option<&str>) -> CreateUserDto {
    CreateUserDto {
        email: Some(email.to_string()),
        mobile_number: None,
        password: password.map(|p| p.to_string()),
    }
}

fn mobile_dto(mobile: &str) -> CreateUserDto {
    CreateUserDto { email: None, mobile_number: Some(mobile.to_string()), password: None }
}

fn domain(r: Result<impl std::fmt::Debug, Error>) -> ErrorEnum {
    match r {
        Err(Error::DefinedError(e)) => e,
        other => panic!("expected a domain error, got {:?}", other),
    }
}

fn signed_up(cache: &mut Redis, db: &mut MongoDB, email: &str, password: &str) {
    let staged = create_temp_user(cache, db, email_dto(email, Some(password)), ValidationType::Signup, POLICY, COST, bits(), bits()).unwrap();
    let otp = staged.delivery.unwrap().otp;
    let done = validate_by_validation_id(cache, db, &ValidateOtpDto { otp, validation_id: staged.validation_id }, POLICY);
    assert!(done.is_ok());
}

#[test]
fn signup_complete_then_token_is_spent() {
    let mut cache = Redis::new(1_000);
    let mut db = MongoDB::new();
    let staged =
        create_temp_user(&mut cache, &db, email_dto("a@x.com", Some("secret")), ValidationType::Signup, POLICY, COST, bits(), bits()).unwrap();
    assert_eq!(staged.validation_id.len(), 36);
    for (i, c) in staged.validation_id.chars().enumerate() {
        if [8, 13, 18, 23].contains(&i) {
            assert_eq!(c, '-');
        } else {
            assert!(c.is_ascii_digit() || ('a'..='f').contains(&c));
        }
    }
    assert_eq!(staged.validation_id.as_bytes()[14], b'4');
    assert!(b"89ab".contains(&staged.validation_id.as_bytes()[19]));
    let delivery = staged.delivery.clone().unwrap();
    assert_eq!(delivery.contact, "a@x.com");
    assert_eq!(delivery.contact_type, ContactType::EMAIL);
    assert_eq!(delivery.otp.len(), 6);
    assert!(delivery.otp.chars().all(|c| c.is_ascii_digit()));

    let req = ValidateOtpDto { otp: delivery.otp.clone(), validation_id: staged.validation_id.clone() };
    let pair = validate_by_validation_id(&mut cache, &mut db, &req, POLICY).unwrap();
    assert_eq!(pair.access.sub, "000000000000000000000000");
    assert_eq!(pair.access.email, Some("a@x.com".to_string()));
    assert_eq!(pair.access.is_refresh, None);
    assert_eq!(pair.refresh.as_ref().unwrap().is_refresh, Some(true));
    assert_eq!(pair.access.roles, vec!["default".to_string()]);
    assert_eq!(pair.access.iat, 1_000);
    assert_eq!(pair.access.exp, 1_000 + 86_400);

    let again = validate_by_validation_id(&mut cache, &mut db, &req, POLICY);
    assert!(matches!(domain(again), ErrorEnum::InvalidValidationId));
}

#[test]
fn mobile_login_for_unknown_account_is_user_not_found() {
    let mut cache = Redis::new(50);
    let db = MongoDB::new();
    let r = stage_flow(
        &mut cache,
        &db,
        mobile_dto("+919876543210"),
        ValidationType::Login,
        POLICY,
        COST,
        "v1".to_string(),
        "123456".to_string(),
    );
    assert!(matches!(domain(r), ErrorEnum::UserNotFound));
    assert_eq!(cache.get(&make_otp_key(&"+919876543210".to_string())), None);
    assert!(cache.get_value(&make_validation_key(&"v1".to_string())).is_err());
}

#[test]
fn forgot_password_wrong_then_right_otp() {
    let mut cache = Redis::new(10);
    let mut db = MongoDB::new();
    signed_up(&mut cache, &mut db, "b@x.com", "old-pass");

    let reset = initiate_forgot_password(&mut cache, &db, &"b@x.com".to_string(), bits(), bits()).unwrap();
    let otp = reset.delivery.clone().unwrap().otp;
    let wrong = if otp == "000000" { "111111" } else { "000000" };
    let bad = validate_change_password(
        &mut cache,
        &mut db,
        ValidateForgotPasswordDto {
            validation_id: reset.validation_id.clone(),
            otp: wrong.to_string(),
            new_password: "new-pass".to_string(),
        },
        COST,
    );
    assert!(matches!(domain(bad), ErrorEnum::InvalidOTP));

    let good = validate_change_password(
        &mut cache,
        &mut db,
        ValidateForgotPasswordDto {
            validation_id: reset.validation_id.clone(),
            otp: otp.clone(),
            new_password: "new-pass".to_string(),
        },
        COST,
    );
    assert!(good.is_ok());

    let with_new = create_temp_user(&mut cache, &db, email_dto("b@x.com", Some("new-pass")), ValidationType::Login, POLICY, COST, bits(), bits());
    assert!(with_new.is_ok());
    let with_old = create_temp_user(&mut cache, &db, email_dto("b@x.com", Some("old-pass")), ValidationType::Login, POLICY, COST, bits(), bits());
    assert!(matches!(domain(with_old), ErrorEnum::PasswordMismatch));
}

#[test]
fn empty_contact_is_refused() {
    let mut cache = Redis::new(0);
    let db = MongoDB::new();
    let dto = CreateUserDto { email: None, mobile_number: None, password: Some("x".to_string()) };
    let r = create_temp_user(&mut cache, &db, dto, ValidationType::Signup, POLICY, COST, bits(), bits());
    assert!(matches!(domain(r), ErrorEnum::EmailMobileEmpty));
}

#[test]
fn signup_of_existing_account_reports_it() {
    let mut cache = Redis::new(0);
    let mut db = MongoDB::new();
    signed_up(&mut cache, &mut db, "c@x.com", "pw");
    let r = create_temp_user(&mut cache, &db, email_dto("c@x.com", Some("pw")), ValidationType::Signup, POLICY, COST, bits(), bits());
    match domain(r) {
        ErrorEnum::UserAlreadyExists(u) => assert_eq!(u.email, Some("c@x.com".to_string())),
        other => panic!("unexpected {:?}", other),
    }
}

#[test]
fn login_by_email_needs_no_passcode() {
    let mut cache = Redis::new(0);
    let mut db = MongoDB::new();
    signed_up(&mut cache, &mut db, "d@x.com", "pw");
    let staged = create_temp_user(&mut cache, &db, email_dto("d@x.com", Some("pw")), ValidationType::Login, POLICY, COST, bits(), bits()).unwrap();
    assert!(staged.delivery.is_none());
    let req = ValidateOtpDto { otp: "anything".to_string(), validation_id: staged.validation_id };
    let pair = validate_by_validation_id(&mut cache, &mut db, &req, POLICY).unwrap();
    assert_eq!(pair.access.email, Some("d@x.com".to_string()));
}

#[test]
fn mobile_signup_then_login_uses_passcodes() {
    let mut cache = Redis::new(0);
    let mut db = MongoDB::new();
    let staged = stage_flow(
        &mut cache,
        &db,
        mobile_dto("+919876543210"),
        ValidationType::Signup,
        POLICY,
        COST,
        "s1".to_string(),
        "004213".to_string(),
    )
    .unwrap();
    let d = staged.delivery.unwrap();
    assert_eq!(d.contact_type, ContactType::MOBILE);
    assert_eq!(d.otp, "004213");
    let wrong = validate_by_validation_id(
        &mut cache,
        &mut db,
        &ValidateOtpDto { otp: "4213".to_string(), validation_id: "s1".to_string() },
        POLICY,
    );
    assert!(matches!(domain(wrong), ErrorEnum::InvalidOTP));
    let ok = validate_by_validation_id(
        &mut cache,
        &mut db,
        &ValidateOtpDto { otp: "004213".to_string(), validation_id: "s1".to_string() },
        POLICY,
    );
    assert!(ok.is_ok());

    let login = stage_flow(
        &mut cache,
        &db,
        mobile_dto("+919876543210"),
        ValidationType::Login,
        POLICY,
        COST,
        "l1".to_string(),
        "777777".to_string(),
    )
    .unwrap();
    assert_eq!(login.delivery.unwrap().otp, "777777");
    let pair = validate_by_validation_id(
        &mut cache,
        &mut db,
        &ValidateOtpDto { otp: "777777".to_string(), validation_id: "l1".to_string() },
        POLICY,
    )
    .unwrap();
    assert_eq!(pair.access.sub, "000000000000000000000000");
}

#[test]
fn staged_identity_expires_after_fifteen_minutes() {
    let mut cache = Redis::new(100);
    let db = MongoDB::new();
    stage_flow(
        &mut cache,
        &db,
        email_dto("e@x.com", None),
        ValidationType::Signup,
        POLICY,
        COST,
        "x".to_string(),
        "123123".to_string(),
    )
    .unwrap();
    cache.set_time(100 + 900);
    let mut db2 = MongoDB::new();
    let r = validate_by_validation_id(
        &mut cache,
        &mut db2,
        &ValidateOtpDto { otp: "123123".to_string(), validation_id: "x".to_string() },
        POLICY,
    );
    assert!(matches!(domain(r), ErrorEnum::InvalidValidationId));
}

#[test]
fn otp_accepted_once_within_its_lifetime() {
    let mut cache = Redis::new(0);
    let user = UserModel {
        id: None,
        email: None,
        mobile_number: Some("+919000000000".to_string()),
        password: None,
        roles: vec![],
    };
    greenie_auth::otp::request_login_otp(&mut cache, &user, false, "246810".to_string()).unwrap();
    cache.set_time(299);
    let code = "246810".to_string();
    assert!(validate_otp(&mut cache, &user, &code, ValidationType::Login, POLICY).is_ok());
    let again = validate_otp(&mut cache, &user, &code, ValidationType::Login, POLICY);
    assert!(matches!(domain(again), ErrorEnum::InvalidOTP));
}

#[test]
fn expired_otp_fails_like_a_wrong_one() {
    let mut cache = Redis::new(0);
    let user = UserModel {
        id: None,
        email: None,
        mobile_number: Some("+919000000001".to_string()),
        password: None,
        roles: vec![],
    };
    greenie_auth::otp::request_login_otp(&mut cache, &user, false, "135790".to_string()).unwrap();
    let wrong = validate_otp(&mut cache, &user, &"999999".to_string(), ValidationType::Login, POLICY);
    let wrong = domain(wrong);
    cache.set_time(300);
    let expired = validate_otp(&mut cache, &user, &"135790".to_string(), ValidationType::Login, POLICY);
    let expired = domain(expired);
    assert!(matches!(wrong, ErrorEnum::InvalidOTP));
    assert!(matches!(expired, ErrorEnum::InvalidOTP));
}

#[test]
fn resend_issues_a_new_passcode() {
    let mut cache = Redis::new(0);
    let db = MongoDB::new();
    let staged =
        create_temp_user(&mut cache, &db, email_dto("f@x.com", Some("pw")), ValidationType::Signup, POLICY, COST, bits(), bits()).unwrap();
    let again = generate_and_resend_otp(&mut cache, &staged.validation_id, POLICY, bits()).unwrap().unwrap();
    assert_eq!(again.contact, "f@x.com");
    assert_eq!(cache.get(&make_otp_key(&"f@x.com".to_string())), Some(again.otp.clone()));
    let unknown = generate_and_resend_otp(&mut cache, &"nope".to_string(), POLICY, bits());
    assert!(matches!(domain(unknown), ErrorEnum::InvalidValidationId));
}

#[test]
fn change_password_checks_the_current_one() {
    let mut cache = Redis::new(0);
    let mut db = MongoDB::new();
    signed_up(&mut cache, &mut db, "g@x.com", "first");
    let id = "000000000000000000000000".to_string();
    let wrong = change_password(
        &mut db,
        &id,
        greenie_auth::dto::ChangePasswordDto { current_password: Some("nope".to_string()), new_password: "second".to_string() },
        false,
        COST,
    );
    assert!(matches!(domain(wrong), ErrorEnum::PasswordMismatch));
    let ok = change_password(
        &mut db,
        &id,
        greenie_auth::dto::ChangePasswordDto { current_password: Some("first".to_string()), new_password: "second".to_string() },
        false,
        COST,
    );
    assert!(ok.is_ok());
    let missing = change_password(
        &mut db,
        &"999".to_string(),
        greenie_auth::dto::ChangePasswordDto { current_password: None, new_password: "x".to_string() },
        true,
        COST,
    );
    assert!(matches!(domain(missing), ErrorEnum::UserNotFound));
    let bad_cost = change_password(
        &mut db,
        &id,
        greenie_auth::dto::ChangePasswordDto { current_password: None, new_password: "x".to_string() },
        true,
        3,
    );
    assert!(matches!(bad_cost, Err(Error::BcryptError(_))));
}

#[test]
fn forgot_password_for_unknown_email() {
    let mut cache = Redis::new(0);
    let db = MongoDB::new();
    let r = initiate_forgot_password(&mut cache, &db, &"nobody@x.com".to_string(), bits(), bits());
    assert!(matches!(domain(r), ErrorEnum::UserNotFound));
    let mut db = MongoDB::new();
    let r = validate_change_password(
        &mut cache,
        &mut db,
        ValidateForgotPasswordDto { validation_id: "z".to_string(), otp: "1".to_string(), new_password: "p".to_string() },
        COST,
    );
    assert!(matches!(domain(r), ErrorEnum::InvalidValidationId));
}

#[test]
fn email_login_passcode_when_policy_asks() {
    let mut cache = Redis::new(0);
    let mut db = MongoDB::new();
    signed_up(&mut cache, &mut db, "p@x.com", "pw");
    let strict = OtpPolicy { email_login_otp: true };
    let staged =
        create_temp_user(&mut cache, &db, email_dto("p@x.com", Some("pw")), ValidationType::Login, strict, COST, bits(), bits()).unwrap();
    let otp = staged.delivery.unwrap().otp;
    let wrong = if otp == "000000" { "111111" } else { "000000" };
    let bad = validate_by_validation_id(
        &mut cache,
        &mut db,
        &ValidateOtpDto { otp: wrong.to_string(), validation_id: staged.validation_id.clone() },
        strict,
    );
    assert!(matches!(domain(bad), ErrorEnum::InvalidOTP));
    let good = validate_by_validation_id(
        &mut cache,
        &mut db,
        &ValidateOtpDto { otp, validation_id: staged.validation_id },
        strict,
    );
    assert!(good.is_ok());
}

#[test]
fn token_and_passcode_from_given_bits() {
    let mut cache = Redis::new(0);
    let db = MongoDB::new();
    let staged =
        create_temp_user(&mut cache, &db, mobile_dto("+919876543210"), ValidationType::Signup, POLICY, COST, 0, 1_234_567)
            .unwrap();
    assert_eq!(staged.validation_id, "00000000-0000-4000-8000-000000000000");
    assert_eq!(staged.delivery.unwrap().otp, "234567");
    let all_ones = create_temp_user(
        &mut cache,
        &db,
        mobile_dto("+919876543211"),
        ValidationType::Signup,
        POLICY,
        COST,
        u128::MAX,
        42,
    )
    .unwrap();
    assert_eq!(all_ones.validation_id, "ffffffff-ffff-4fff-bfff-ffffffffffff");
    assert_eq!(all_ones.delivery.unwrap().otp, "000042");
}
