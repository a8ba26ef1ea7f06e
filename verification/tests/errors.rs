use rustle::db::rbac::RBACUserError;
use rustle::db::DBInternalError;
use rustle::external::fs::FsUserError;
use rustle::providers::user::service::MailInternalError;
use rustle::types::err::{AppError, GlobalInternalError, GlobalUserError, StatusCode};
use rustle::utils::paseto::TokenInternalError;
use rustle::utils::password_salt::{PasswordSaltInternalError, PasswordTooLong};
use rustle::utils::response::error_response;

#[test]
fn status_code_is_a_number_from_100_to_999() {
    assert_eq!(StatusCode::from_u16(99), None);
    assert_eq!(StatusCode::from_u16(0), None);
    assert_eq!(StatusCode::from_u16(1000), None);
    assert_eq!(StatusCode::from_u16(u16::MAX), None);
    assert_eq!(StatusCode::from_u16(100).unwrap().as_u16(), 100);
    assert_eq!(StatusCode::from_u16(999).unwrap().as_u16(), 999);
    assert_eq!(StatusCode::from_u16(404).unwrap().as_u16(), 404);
}

#[test]
fn app_error_keeps_status_and_message() {
    let status = StatusCode::from_u16(418).unwrap();
    let user = AppError::new_user(status, "teapot");
    assert_eq!(user, AppError::User(status, "teapot"));
    assert_eq!(user.status_code(), status);
    assert_eq!(user.message(), "teapot");
    let internal = AppError::new_internal(status, "broken");
    assert_eq!(internal, AppError::Internal(status, "broken"));
    assert_eq!(internal.message(), "broken");
    assert_ne!(user, internal);
}

#[test]
fn global_user_errors_have_their_codes_and_messages() {
    let expected: Vec<(GlobalUserError, u16, &str)> = vec![
        (GlobalUserError::NotFound, 200, "not found"),
        (GlobalUserError::CredentialUnauthorized, 200, "credential unauthorized"),
        (GlobalUserError::StatusUnauthorized, 200, "status unauthorized"),
        (GlobalUserError::PermissionDenied, 200, "permission denied"),
        (GlobalUserError::TooMaxParameter, 200, "too max parameter"),
        (GlobalUserError::InvalidParameter, 412, "invalid parameter"),
        (GlobalUserError::InvalidPayload, 400, "invalid payload"),
        (GlobalUserError::InvalidMime, 400, "invalid mime"),
        (GlobalUserError::UnknownLang, 200, "unknown lang"),
        (GlobalUserError::FeatureNotEnabled, 501, "feature not enabled"),
        (GlobalUserError::PayloadTooLarge, 413, "payload too large"),
        (GlobalUserError::PayloadLengthRequired, 411, "payload length required"),
        (GlobalUserError::SystemReserved, 200, "system reserved"),
    ];
    for (e, code, msg) in expected {
        let err = e.to_error();
        assert!(matches!(err, AppError::User(_, _)));
        assert_eq!(err.status_code().as_u16(), code);
        assert_eq!(err.message(), msg);
        assert_eq!(AppError::from(e), err);
    }
}

#[test]
fn internal_errors_answer_with_500() {
    let expected: Vec<(AppError, &str)> = vec![
        (GlobalInternalError::IO.to_error(), "error.io"),
        (DBInternalError::DBConnection.to_error(), "error.db.connection"),
        (DBInternalError::DBUnknown.to_error(), "error.db.unknown"),
        (MailInternalError::Render.to_error(), "error.mail.render"),
        (MailInternalError::Busy.to_error(), "error.mail.busy"),
        (MailInternalError::Parse.to_error(), "error.mail.parse"),
        (TokenInternalError.to_error(), "error.token"),
        (PasswordSaltInternalError.to_error(), "error.password.salt"),
    ];
    for (err, msg) in expected {
        assert!(matches!(err, AppError::Internal(_, _)));
        assert_eq!(err.status_code().as_u16(), 500);
        assert_eq!(err.message(), msg);
    }
    assert_eq!(AppError::from(GlobalInternalError::IO), GlobalInternalError::IO.to_error());
    assert_eq!(
        AppError::from(DBInternalError::DBUnknown),
        DBInternalError::DBUnknown.to_error()
    );
}

#[test]
fn other_user_errors_answer_with_200() {
    let expected: Vec<(AppError, &str)> = vec![
        (RBACUserError::RoleTooLong.to_error(), "role too long"),
        (RBACUserError::RoleStrCorrupted.to_error(), "role str corrupted"),
        (FsUserError::PolicyNotFound.to_error(), "policy not found"),
        (FsUserError::PathNameNotValid.to_error(), "path name not valid"),
        (PasswordTooLong.to_error(), "password too long"),
    ];
    for (err, msg) in expected {
        assert!(matches!(err, AppError::User(_, _)));
        assert_eq!(err.status_code().as_u16(), 200);
        assert_eq!(err.message(), msg);
    }
    assert_eq!(
        AppError::from(RBACUserError::RoleTooLong),
        RBACUserError::RoleTooLong.to_error()
    );
    assert_eq!(
        AppError::from(FsUserError::PolicyNotFound),
        FsUserError::PolicyNotFound.to_error()
    );
}

#[test]
fn error_response_names_the_kind() {
    assert_eq!(
        error_response(&GlobalUserError::InvalidMime.to_error()),
        (400, "invalid mime", "user")
    );
    assert_eq!(error_response(&GlobalInternalError::IO.to_error()), (500, "error.io", "internal"));
}

#[test]
fn error_in_one_line() {
    assert_eq!(GlobalUserError::InvalidMime.to_error().to_string(), "400: invalid mime");
    assert_eq!(GlobalInternalError::IO.to_error().to_string(), "500: error.io");
    let status = StatusCode::from_u16(999).unwrap();
    assert_eq!(AppError::new_user(status, "").to_string(), "999: ");
}
