pub mod unlock_cv;
