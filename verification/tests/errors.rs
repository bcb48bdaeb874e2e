use sproot::errors::AppError;
use sproot::errors::AppErrorType;

#[test]
fn new_app_error_is_a_server_error() {
    let e = AppError::new("database went away".to_string());
    assert_eq!(e.error_type, AppErrorType::ServerError);
    assert_eq!(e.message, "database went away");
}

#[test]
fn user_messages_by_kind() {
    let mk = |t: AppErrorType| AppError { message: "raw detail".to_string(), error_type: t };
    assert_eq!(
        mk(AppErrorType::NotFound).message(),
        "The requested resource doesn't exists."
    );
    assert_eq!(
        mk(AppErrorType::PoolError).message(),
        "Cannot get a connection from the R2D2's pool"
    );
    assert_eq!(
        mk(AppErrorType::InvalidToken).message(),
        "The token is invalid or has expired"
    );
    assert_eq!(mk(AppErrorType::InvalidRequest).message(), "Invalid request");
    assert_eq!(
        mk(AppErrorType::ServerError).message(),
        "Server error, try again later"
    );
    // The remaining kinds surface the raw message.
    assert_eq!(mk(AppErrorType::DieselError).message(), "raw detail");
    assert_eq!(mk(AppErrorType::UUIDError).message(), "raw detail");
    assert_eq!(mk(AppErrorType::ExpiredJwtError).message(), "raw detail");
}
