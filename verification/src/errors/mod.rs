pub mod app_error;

pub use app_error::{AppError, AppResult, AppErrorView, text_result_view, bytes_result_view};
