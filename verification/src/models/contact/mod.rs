pub mod db;
pub mod enums;
pub mod fetch_levels;
pub mod request;
