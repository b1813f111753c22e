pub mod base;
pub mod models;
pub mod requests;
