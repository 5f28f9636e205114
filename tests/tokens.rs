use greenie_auth::accounts::MongoDB;
use greenie_auth::error::{Error, ErrorEnum};
use greenie_auth::model::UserModel;
use greenie_auth::token::{create_token, decode_token, get_refreshed_tokens};

fn account(id: &str) -> UserModel {
    UserModel {
        id: Some(id.to_string()),
        email: Some("t@x.com".to_string()),
        mobile_number: None,
        password: None,
        roles: vec!["default".to_string()],
    }
}

#[test]
fn issue_then_verify_round_trip() {
    let pair = create_token(&account("42"), 5_000);
    let claims = decode_token(pair.access.clone(), 5_000).unwrap();
    assert_eq!(claims.sub, "42");
    assert!(claims.exp > 5_000);
    assert_eq!(claims.iss, "greenie.one");
    assert_eq!(claims.session_id, "");
    let refresh = pair.refresh.unwrap();
    assert_eq!(refresh.exp, 5_000 + 2_592_000);
}

#[test]
fn expired_token_is_refused() {
    let pair = create_token(&account("42"), 0);
    let r = decode_token(pair.access, 86_401);
    assert!(matches!(r, Err(Error::DefinedError(ErrorEnum::TokenExpired))));
    let pair = create_token(&account("42"), 0);
    assert!(decode_token(pair.access, 86_400).is_ok());
}

#[test]
fn refresh_needs_the_marker() {
    let mut db = MongoDB::new();
    let id = db.create_user(account("ignored")).unwrap();
    let user = db.find_user(&None, &None, &Some(id.clone())).unwrap();
    let pair = create_token(&user, 100);
    let r = get_refreshed_tokens(&db, &pair.access, 100);
    assert!(matches!(r, Err(Error::DefinedError(ErrorEnum::InvalidRefreshToken))));
    let fresh = get_refreshed_tokens(&db, pair.refresh.as_ref().unwrap(), 200).unwrap();
    assert!(fresh.refresh.is_none());
    assert_eq!(fresh.access.sub, id);
    assert_eq!(fresh.access.iat, 200);
    let empty = MongoDB::new();
    let r = get_refreshed_tokens(&empty, pair.refresh.as_ref().unwrap(), 200);
    assert!(matches!(r, Err(Error::DefinedError(ErrorEnum::UnAuthorized))));
    let r = get_refreshed_tokens(&db, pair.refresh.as_ref().unwrap(), 100 + 2_592_001);
    assert!(matches!(r, Err(Error::DefinedError(ErrorEnum::TokenExpired))));
}
