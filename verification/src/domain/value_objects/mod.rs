pub mod email;
pub mod user_id;
