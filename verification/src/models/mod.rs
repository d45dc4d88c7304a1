pub mod admin_user;
pub mod comment;
pub mod post;
