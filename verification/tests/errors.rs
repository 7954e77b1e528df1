use http_server_rs::errors::AppError;
use http_server_rs::handlers::auth::login_response;

#[test]
fn error_mapping() {
    let cases = [
        (AppError::Unauthorized, 401, "AUTH_FAILED", "Autoryzacja nie powiodła się", None),
        (
            AppError::NotFound("CV 1".to_string()),
            404,
            "RESOURCE_NOT_FOUND",
            "Nie znaleziono zasobu: CV 1",
            Some("CV 1"),
        ),
        (
            AppError::ValidationError("zły".to_string()),
            400,
            "VALIDATION_ERROR",
            "Błędne dane wejściowe: zły",
            Some("zły"),
        ),
        (
            AppError::CryptoError("k".to_string()),
            422,
            "CRYPTO_FAILURE",
            "Błąd kryptograficzny: k",
            Some("k"),
        ),
        (AppError::DatabaseError("d".to_string()), 500, "DATABASE_ERROR", "Błąd bazy danych", None),
        (AppError::RedisError("r".to_string()), 500, "CACHE_ERROR", "Błąd usługi Redis", None),
        (
            AppError::Internal("i".to_string()),
            500,
            "INTERNAL_SERVER_ERROR",
            "Wystąpił nieoczekiwany błąd serwera",
            None,
        ),
    ];
    for (e, status, code, message, details) in cases {
        assert_eq!(e.status_code(), status);
        assert_eq!(e.error_code(), code);
        assert_eq!(e.message(), message);
        assert_eq!(e.details().as_deref(), details);
    }
}

#[test]
fn login_answer() {
    assert_eq!(login_response().message, "Login successful");
}
