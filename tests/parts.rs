use greenie_auth::accounts::MongoDB;
use greenie_auth::dto::{sanitize_mobile, validate_create_user_dto, ChangePasswordDto, CreateUserDto, ValidateForgotPasswordDto};
use greenie_auth::error::{get_error, Error, ErrorBody, ErrorEnum};
use greenie_auth::model::{UserModel, ValidationType};
use greenie_auth::oauth::{
    code_from_callback, get_provider, GoogleAccessTokenClaims, GoogleAccessTokenResponse, GoogleProvider,
    LinkedInProvider, OAuthClient, Providers,
};
use greenie_auth::otp::{get_otp_type, otp_code, ContactType};
use greenie_auth::signup::{parse_and_validate_user, parse_user};
use greenie_auth::store::{CacheValue, Redis};
use greenie_auth::text::padded_decimal;

#[test]
fn error_codes_and_statuses() {
    let cases: Vec<(ErrorEnum, &str, u16, &str)> = vec![
        (ErrorEnum::ValidationError("bad".to_string()), "GRA0000", 400, "Failed to validate request: [bad]"),
        (ErrorEnum::UnAuthorized, "GRA0001", 401, "Unauthorized"),
        (ErrorEnum::InvalidValidationId, "GRA0004", 400, "Invalid validation ID"),
        (ErrorEnum::InvalidRefreshToken, "GRA0005", 400, "Invalid refresh token"),
        (ErrorEnum::UserNotFound, "GRA0008", 404, "User not found"),
        (ErrorEnum::UserContactMissing, "GRA0011", 500, "Both mobile and email are missing"),
        (ErrorEnum::PasswordMismatch, "GRA0012", 401, "Invalid user details"),
        (ErrorEnum::EmailMobileEmpty, "GRA0013", 400, "Mobile number and email both cannot be empty"),
        (ErrorEnum::InvalidOTP, "GRA0014", 400, "Invalid OTP"),
        (ErrorEnum::TokenExpired, "GRA0015", 401, "Auth token is expired"),
        (ErrorEnum::OAuthProviderNotFound, "GRA0016", 400, "OAuth invalid provider"),
        (ErrorEnum::OAuthFailed("boom".to_string()), "GRA0017", 500, "OAuth failed: boom"),
        (ErrorEnum::NotYetImplemented, "GRA9999", 500, "Feature not yet implemented"),
    ];
    for (e, code, status, message) in cases {
        let g = get_error(&e);
        assert_eq!(g.code, code);
        assert_eq!(g.status, status);
        assert_eq!(g.message, message);
    }
    let existing = UserModel { id: None, email: None, mobile_number: None, password: None, roles: vec![] };
    let g = get_error(&ErrorEnum::UserAlreadyExists(existing));
    assert_eq!((g.code.as_str(), g.status), ("GRA0003", 409));
}

#[test]
fn error_responses() {
    let r = Error::Internal("db down".to_string()).error_response();
    assert_eq!(r.status, 500);
    assert_eq!(r.body, ErrorBody::Plain("Internal server error".to_string()));
    let r = Error::JWTError("bad signature".to_string()).error_response();
    assert_eq!(r.status, 401);
    assert!(matches!(r.body, ErrorBody::Generic(ref g) if g.code == "GRA0001"));
    let r = Error::new("custom", 418).error_response();
    assert_eq!((r.status, r.body), (418, ErrorBody::Plain("custom".to_string())));
    let r = Error::ToStrError("not text".to_string()).error_response();
    assert_eq!((r.status, r.body), (400, ErrorBody::Plain("not text".to_string())));
    let r = Error::ValidationErrors("email: invalid email address".to_string()).error_response();
    assert_eq!(r.status, 400);
    match r.body {
        ErrorBody::Generic(g) => assert_eq!(g.message, "Failed to validate request: [email: invalid email address]"),
        other => panic!("unexpected {:?}", other),
    }
    let r = Error::DefinedError(ErrorEnum::UserNotFound).error_response();
    assert_eq!(r.status, 404);
}

#[test]
fn providers_by_slug() {
    assert!(matches!(get_provider("google"), Ok(Providers::Google(_))));
    assert!(matches!(get_provider("linkedin"), Ok(Providers::LinkedIn(_))));
    assert!(matches!(get_provider("github"), Err(Error::DefinedError(ErrorEnum::OAuthProviderNotFound))));
}

#[test]
fn redirect_addresses() {
    let client = OAuthClient { client_id: "cid".to_string(), redirect_uri: "https://app.example/cb".to_string() };
    let g = GoogleProvider.get_redirect_uri(&client).unwrap();
    assert_eq!(
        g,
        "https://accounts.google.com/o/oauth2/v2/auth?response_type=code&client_id=cid&redirect_uri=https%3A%2F%2Fapp.example%2Fcb&scope=https%3A%2F%2Fwww.googleapis.com%2Fauth%2Fuserinfo.profile+https%3A%2F%2Fwww.googleapis.com%2Fauth%2Fuserinfo.email&access_type=offline&prompt=consent"
    );
    let l = Providers::LinkedIn(LinkedInProvider).get_redirect_uri(&client).unwrap();
    assert_eq!(
        l,
        "https://www.linkedin.com/oauth/v2/authorization?response_type=code&client_id=cid&redirect_uri=https%3A%2F%2Fapp.example%2Fcb&scope=openid+email+profile+r_liteprofile"
    );
    assert!(matches!(LinkedInProvider.handle_login(), Err(Error::DefinedError(ErrorEnum::NotYetImplemented))));
}

#[test]
fn callback_code() {
    assert_eq!(code_from_callback("https://greenie.one/callback/google?state=1&code=4%2Fabc").unwrap(), "4/abc");
    assert!(matches!(
        code_from_callback("https://greenie.one/callback/google?state=1"),
        Err(Error::DefinedError(ErrorEnum::ValidationError(_)))
    ));
    assert!(matches!(code_from_callback("not a url"), Err(Error::ParseError(_))));
}

#[test]
fn token_endpoint_answers() {
    let mut resp = GoogleAccessTokenResponse {
        access_token: None,
        expires_in: None,
        refresh_token: None,
        scope: None,
        token_type: None,
        id_token: Some("idt".to_string()),
        error: None,
        error_description: None,
    };
    assert_eq!(GoogleProvider.id_token_of(&resp).unwrap(), "idt");
    resp.error = Some("invalid_grant".to_string());
    resp.error_description = Some("Bad code".to_string());
    match GoogleProvider.id_token_of(&resp) {
        Err(Error::DefinedError(ErrorEnum::OAuthFailed(m))) => assert_eq!(m, "invalid_grant: Bad code"),
        other => panic!("unexpected {:?}", other),
    }
    resp.error = None;
    resp.id_token = None;
    match GoogleProvider.id_token_of(&resp) {
        Err(Error::DefinedError(ErrorEnum::OAuthFailed(m))) => assert_eq!(m, "Missing id token in response"),
        other => panic!("unexpected {:?}", other),
    }
}

#[test]
fn google_login_attaches_or_creates() {
    let mut db = MongoDB::new();
    let claims = GoogleAccessTokenClaims {
        exp: 1_000,
        email: Some("o@x.com".to_string()),
        given_name: Some("Ada".to_string()),
        family_name: None,
    };
    let first = GoogleProvider.handle_login(&mut db, claims.clone(), 900).unwrap();
    assert_eq!(first.profile_hints.first_name, Some("Ada".to_string()));
    assert_eq!(first.tokens.access.sub, "000000000000000000000000");
    let second = GoogleProvider.handle_login(&mut db, claims.clone(), 950).unwrap();
    assert_eq!(second.tokens.access.sub, "000000000000000000000000");
    assert_eq!(db.find_user(&None, &None, &Some("000000000000000000000001".to_string())), None);
    let late = GoogleProvider.handle_login(&mut db, claims, 1_001);
    assert!(matches!(late, Err(Error::DefinedError(ErrorEnum::TokenExpired))));
}

#[test]
fn request_checks() {
    let ok = CreateUserDto { email: Some("a@x.com".to_string()), mobile_number: None, password: Some("p".to_string()) };
    assert!(ok.validate().is_ok());
    let no_pass = CreateUserDto { email: Some("a@x.com".to_string()), mobile_number: None, password: None };
    let e = validate_create_user_dto(&no_pass).unwrap_err();
    assert_eq!(e.code, "missing_pass");
    match no_pass.validate() {
        Err(Error::ValidationErrors(d)) => assert_eq!(d, "password: Password should not be empty"),
        other => panic!("unexpected {:?}", other),
    }
    let bad = CreateUserDto {
        email: Some("not-an-email".to_string()),
        mobile_number: Some("+911234".to_string()),
        password: None,
    };
    match bad.validate() {
        Err(Error::ValidationErrors(d)) => assert_eq!(
            d,
            "email: invalid email address, mobileNumber: invalid mobile number, password: Password should not be empty"
        ),
        other => panic!("unexpected {:?}", other),
    }
    let mobile = CreateUserDto { email: None, mobile_number: Some("+919876543210".to_string()), password: None };
    assert!(mobile.validate().is_ok());
}

#[test]
fn mobile_prefix() {
    assert_eq!(sanitize_mobile(Some("9876543210".to_string())), Some("+919876543210".to_string()));
    assert_eq!(sanitize_mobile(Some("+15550100".to_string())), Some("+15550100".to_string()));
    assert_eq!(sanitize_mobile(Some(String::new())), Some("+91".to_string()));
    assert_eq!(sanitize_mobile(None), None);
}

#[test]
fn change_request_from_reset() {
    let reset = ValidateForgotPasswordDto {
        validation_id: "v".to_string(),
        otp: "1".to_string(),
        new_password: "np".to_string(),
    };
    let c: ChangePasswordDto = reset.into();
    assert_eq!(c, ChangePasswordDto { current_password: None, new_password: "np".to_string() });
}

#[test]
fn passcodes_and_digits() {
    assert_eq!(otp_code(42), "000042");
    assert_eq!(otp_code(1_234_567), "234567");
    assert_eq!(padded_decimal(7, 3), "007");
    assert_eq!(padded_decimal(12345, 2), "45");
    assert_eq!(padded_decimal(0, 0), "");
    assert_eq!(get_otp_type(ContactType::EMAIL), "EMAIL");
    assert_eq!(get_otp_type(ContactType::MOBILE), "MOBILE");
    assert_eq!(ValidationType::Login.to_text(), "LOGIN");
    assert_eq!(ValidationType::Signup.to_text(), "SIGNUP");
}

#[test]
fn password_hash_round_trip() {
    let dto = CreateUserDto { email: Some("h@x.com".to_string()), mobile_number: None, password: Some("pw".to_string()) };
    let user = parse_user(&dto, 4).unwrap();
    let hash = user.password.clone().unwrap();
    assert_ne!(hash, "pw");
    assert!(hash.starts_with("$2b$04$"));
    assert_eq!(user.roles, vec!["default".to_string()]);
    assert!(parse_and_validate_user(&dto, user.clone()).is_ok());
    let wrong = CreateUserDto { password: Some("other".to_string()), ..dto.clone() };
    assert!(matches!(
        parse_and_validate_user(&wrong, user.clone()),
        Err(Error::DefinedError(ErrorEnum::PasswordMismatch))
    ));
    let unreadable = UserModel { password: Some("garbage".to_string()), ..user };
    assert!(matches!(parse_and_validate_user(&dto, unreadable), Err(Error::BcryptError(_))));
    assert!(matches!(parse_user(&dto, 40), Err(Error::BcryptError(_))));
}

#[test]
fn ephemeral_store_basics() {
    let mut cache = Redis::new(10);
    assert!(cache.set_ex("k".to_string(), 0, "v".to_string()).is_err());
    assert_eq!(cache.get(&"k".to_string()), None);
    cache.set_ex("k".to_string(), 5, "v".to_string()).unwrap();
    cache.set_ex("k".to_string(), 20, "w".to_string()).unwrap();
    assert_eq!(cache.get(&"k".to_string()), Some("w".to_string()));
    cache.set_time(29);
    assert_eq!(cache.get(&"k".to_string()), Some("w".to_string()));
    cache.set_time(30);
    assert_eq!(cache.get(&"k".to_string()), None);
    match cache.get_value(&"k".to_string()) {
        Err(Error::WebResponseErrorCustom(c)) => {
            assert_eq!((c.msg.as_str(), c.status), ("Value not found in redis cache", 500))
        },
        other => panic!("unexpected {:?}", other),
    }
    cache.set_ex("a".to_string(), 10, "1".to_string()).unwrap();
    assert!(matches!(cache.take(&"a".to_string()), Some(CacheValue::Text(ref s)) if s == "1"));
    assert!(cache.take(&"a".to_string()).is_none());
    cache.set_ex("b".to_string(), 10, "2".to_string()).unwrap();
    cache.del(&"b".to_string()).unwrap();
    assert_eq!(cache.get(&"b".to_string()), None);
    assert_eq!(cache.now(), 30);
}

#[test]
fn account_store_keeps_contacts_unique() {
    let mut db = MongoDB::new();
    let u = |e: Option<&str>, m: Option<&str>| UserModel {
        id: None,
        email: e.map(|s| s.to_string()),
        mobile_number: m.map(|s| s.to_string()),
        password: None,
        roles: vec![],
    };
    assert_eq!(db.create_user(u(Some("a@x.com"), None)).unwrap(), "000000000000000000000000");
    assert_eq!(db.create_user(u(None, Some("+911"))).unwrap(), "000000000000000000000001");
    match db.create_user(u(Some("b@x.com"), Some("+911"))) {
        Err(Error::DefinedError(ErrorEnum::UserAlreadyExists(x))) => {
            assert_eq!(x.id, Some("000000000000000000000001".to_string()))
        },
        other => panic!("unexpected {:?}", other),
    }
    match db.create_user(u(Some("a@x.com"), Some("+911"))) {
        Err(Error::DefinedError(ErrorEnum::UserAlreadyExists(x))) => {
            assert_eq!(x.id, Some("000000000000000000000000".to_string()))
        },
        other => panic!("unexpected {:?}", other),
    }
    assert!(matches!(db.create_user(u(None, None)), Err(Error::DefinedError(ErrorEnum::EmailMobileEmpty))));
    let found = db.find_user(&Some("a@x.com".to_string()), &None, &None).unwrap();
    assert_eq!(found.id, Some("000000000000000000000000".to_string()));
    assert_eq!(db.find_user(&Some("a@x.com".to_string()), &Some("+911".to_string()), &None), None);
    let before = db.update_password(&"000000000000000000000001".to_string(), "h".to_string()).unwrap();
    assert_eq!(before.password, None);
    let after = db.find_user(&None, &Some("+911".to_string()), &None).unwrap();
    assert_eq!(after.password, Some("h".to_string()));
    assert_eq!(db.update_password(&"nope".to_string(), "h".to_string()), None);
}
