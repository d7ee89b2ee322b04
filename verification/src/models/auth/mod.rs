pub mod key;
pub mod oauth;
pub mod user;
