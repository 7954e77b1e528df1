use vstd::prelude::*;

verus! {

/// Errors of the application; each carries the text that is shown to a client.
#[derive(Debug)]
pub enum AppError {
    Unauthorized,
    NotFound(String),
    ValidationError(String),
    CryptoError(String),
    /// A failure of the document database, with the driver's own description.
    DatabaseError(String),
    /// A failure of the key-value cache, with the client's own description.
    RedisError(String),
    /// Any failure that was not foreseen, with its description.
    Internal(String),
}

/// Result type used throughout the library.
pub type AppResult<T> = Result<T, AppError>;

/// The mathematical value of an error: its kind and its text.
pub enum AppErrorView {
    Unauthorized,
    NotFound(Seq<char>),
    ValidationError(Seq<char>),
    CryptoError(Seq<char>),
    DatabaseError(Seq<char>),
    RedisError(Seq<char>),
    Internal(Seq<char>),
}

impl View for AppError {
    type V = AppErrorView;

    open spec fn view(&self) -> AppErrorView {
        match self {
            AppError::Unauthorized => AppErrorView::Unauthorized,
            AppError::NotFound(d) => AppErrorView::NotFound(d@),
            AppError::ValidationError(d) => AppErrorView::ValidationError(d@),
            AppError::CryptoError(d) => AppErrorView::CryptoError(d@),
            AppError::DatabaseError(d) => AppErrorView::DatabaseError(d@),
            AppError::RedisError(d) => AppErrorView::RedisError(d@),
            AppError::Internal(d) => AppErrorView::Internal(d@),
        }
    }
}

/// The value of a result that carries a text.
pub open spec fn text_result_view(r: AppResult<String>) -> Result<Seq<char>, AppErrorView> {
    match r {
        Ok(s) => Ok(s@),
        Err(e) => Err(e@),
    }
}

/// The value of a result that carries bytes.
pub open spec fn bytes_result_view(r: AppResult<Vec<u8>>) -> Result<Seq<u8>, AppErrorView> {
    match r {
        Ok(b) => Ok(b@),
        Err(e) => Err(e@),
    }
}

/// The stable machine-readable code of each kind of error.
pub open spec fn error_code_of(e: AppError) -> Seq<char> {
    match e {
        AppError::Unauthorized => "AUTH_FAILED"@,
        AppError::NotFound(_) => "RESOURCE_NOT_FOUND"@,
        AppError::ValidationError(_) => "VALIDATION_ERROR"@,
        AppError::CryptoError(_) => "CRYPTO_FAILURE"@,
        AppError::DatabaseError(_) => "DATABASE_ERROR"@,
        AppError::RedisError(_) => "CACHE_ERROR"@,
        AppError::Internal(_) => "INTERNAL_SERVER_ERROR"@,
    }
}

/// The HTTP status with which each kind of error is answered.
pub open spec fn status_of(e: AppError) -> u16 {
    match e {
        AppError::Unauthorized => 401,
        AppError::NotFound(_) => 404,
        AppError::ValidationError(_) => 400,
        AppError::CryptoError(_) => 422,
        AppError::DatabaseError(_) => 500,
        AppError::RedisError(_) => 500,
        AppError::Internal(_) => 500,
    }
}

/// The human-readable message of each error.
pub open spec fn message_of(e: AppError) -> Seq<char> {
    match e {
        AppError::Unauthorized => "Autoryzacja nie powiodła się"@,
        AppError::NotFound(d) => "Nie znaleziono zasobu: "@ + d@,
        AppError::ValidationError(d) => "Błędne dane wejściowe: "@ + d@,
        AppError::CryptoError(d) => "Błąd kryptograficzny: "@ + d@,
        AppError::DatabaseError(_) => "Błąd bazy danych"@,
        AppError::RedisError(_) => "Błąd usługi Redis"@,
        AppError::Internal(_) => "Wystąpił nieoczekiwany błąd serwera"@,
    }
}

/// The details that are sent to a client: only for errors about the request itself.
pub open spec fn details_of(e: AppError) -> Option<Seq<char>> {
    match e {
        AppError::ValidationError(d) => Some(d@),
        AppError::NotFound(d) => Some(d@),
        AppError::CryptoError(d) => Some(d@),
        _ => None,
    }
}

impl AppError {
    /// The code that a front end can match on.
    pub fn error_code(&self) -> (code: &'static str)
        ensures
            code@ == error_code_of(*self),
    {
        match self {
            AppError::Unauthorized => "AUTH_FAILED",
            AppError::NotFound(_) => "RESOURCE_NOT_FOUND",
            AppError::ValidationError(_) => "VALIDATION_ERROR",
            AppError::CryptoError(_) => "CRYPTO_FAILURE",
            AppError::DatabaseError(_) => "DATABASE_ERROR",
            AppError::RedisError(_) => "CACHE_ERROR",
            AppError::Internal(_) => "INTERNAL_SERVER_ERROR",
        }
    }

    /// The HTTP status code of the response for this error.
    pub fn status_code(&self) -> (status: u16)
        ensures
            status == status_of(*self),
    {
        match self {
            AppError::Unauthorized => 401,
            AppError::NotFound(_) => 404,
            AppError::ValidationError(_) => 400,
            AppError::CryptoError(_) => 422,
            AppError::DatabaseError(_) => 500,
            AppError::RedisError(_) => 500,
            AppError::Internal(_) => 500,
        }
    }

    /// The message of this error, as it is displayed.
    pub fn message(&self) -> (text: String)
        ensures
            text@ == message_of(*self),
    {
        match self {
            AppError::Unauthorized => String::from_str("Autoryzacja nie powiodła się"),
            AppError::NotFound(d) => {
                let mut s = String::from_str("Nie znaleziono zasobu: ");
                s.append(d.as_str());
                s
            },
            AppError::ValidationError(d) => {
                let mut s = String::from_str("Błędne dane wejściowe: ");
                s.append(d.as_str());
                s
            },
            AppError::CryptoError(d) => {
                let mut s = String::from_str("Błąd kryptograficzny: ");
                s.append(d.as_str());
                s
            },
            AppError::DatabaseError(_) => String::from_str("Błąd bazy danych"),
            AppError::RedisError(_) => String::from_str("Błąd usługi Redis"),
            AppError::Internal(_) => String::from_str("Wystąpił nieoczekiwany błąd serwera"),
        }
    }

    /// The details that may be shown to a client.
    pub fn details(&self) -> (d: Option<String>)
        ensures
            match d {
                Some(s) => details_of(*self) == Some(s@),
                None => details_of(*self) is None,
            },
    {
        match self {
            AppError::ValidationError(d) => Some(d.clone()),
            AppError::NotFound(d) => Some(d.clone()),
            AppError::CryptoError(d) => Some(d.clone()),
            _ => None,
        }
    }
}

} // verus!
