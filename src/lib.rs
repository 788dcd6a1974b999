//! Account, credit and payment core of a scraping-task service.
pub mod account;
pub mod base62;
pub mod claims;
pub mod credit;
pub mod dto;
pub mod enums;
pub mod error;
mod sys;
pub mod pay;
pub mod page;
pub mod password;
pub mod task;
pub mod favorite;
pub mod validate_code;
pub mod stats;
pub mod views;
