use http_server_rs::domain::auth::models::{SessionTtl, UserId as TextUserId};
use http_server_rs::domain::auth::types::{SessionToken, UserId as OwnedUserId};
use http_server_rs::domain::value_objects::email::Email;
use http_server_rs::domain::value_objects::user_id::UserId;
use http_server_rs::errors::AppError;

#[test]
fn email_is_normalized() {
    let e = Email::new("  Jan.Kowalski@Example.COM \n".to_string()).unwrap();
    assert_eq!(e.as_str(), "jan.kowalski@example.com");
}

#[test]
fn email_without_at_is_refused() {
    for bad in ["", "   ", "no-at-sign.example.com"] {
        match Email::new(bad.to_string()) {
            Err(AppError::ValidationError(m)) => assert_eq!(m, "Invalid email format"),
            other => panic!("unexpected {other:?}"),
        }
    }
    assert_eq!(Email::new("@".to_string()).unwrap().as_str(), "@");
}

#[test]
fn user_id_round_trip() {
    let id = UserId::parse("507F1F77BCF86CD799439011").unwrap();
    assert_eq!(
        id.as_inner(),
        &[0x50, 0x7f, 0x1f, 0x77, 0xbc, 0xf8, 0x6c, 0xd7, 0x99, 0x43, 0x90, 0x11]
    );
    assert_eq!(id.to_hex(), "507f1f77bcf86cd799439011");
    assert_eq!(id.to_string(), "507f1f77bcf86cd799439011");
    assert_eq!(UserId::parse(&id.to_hex()).unwrap(), id);
    let raw = UserId::new([255u8; 12]);
    assert_eq!(raw.to_hex(), "ffffffffffffffffffffffff");
}

#[test]
fn user_id_bad_text_refused() {
    for bad in ["", "507f1f77bcf86cd79943901", "507f1f77bcf86cd79943901g", "507f1f77bcf86cd7994390111"] {
        match UserId::parse(bad) {
            Err(AppError::ValidationError(m)) => assert_eq!(m, format!("Invalid UserId: {bad}")),
            other => panic!("unexpected {other:?}"),
        }
    }
}

#[test]
fn auth_newtypes() {
    let u: TextUserId = "u-1".into();
    assert_eq!(u.0, "u-1");
    let o: OwnedUserId = "u-2".to_string().into();
    assert_eq!(o.0, "u-2");
    let t = SessionToken("tok".to_string());
    assert_eq!(t.as_ref(), "tok");
    assert_eq!(SessionTtl(5).0, 5);
}
