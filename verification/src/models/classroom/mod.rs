pub mod db;
pub mod fetch_levels;
