pub mod config;
pub mod pagination;
pub mod requests;
pub mod response;
pub mod string;
