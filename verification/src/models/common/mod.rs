pub mod enums;
pub mod requests;
pub mod response;
pub mod string;
pub mod top_level_variant;
