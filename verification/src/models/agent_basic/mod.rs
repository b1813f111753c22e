pub mod basic_agent;
pub mod basic_traits;
