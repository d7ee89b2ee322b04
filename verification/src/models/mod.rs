pub mod auth;
pub mod certificate;
pub mod cheer_practice_attendance;
pub mod cheer_practice_period;
pub mod classroom;
pub mod club;
pub mod club_request;
pub mod common;
pub mod contact;
