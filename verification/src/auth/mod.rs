pub mod key;
pub mod oauth;
