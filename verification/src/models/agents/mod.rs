pub mod agent_architect;
pub mod agent_backend;
pub mod agent_trait;
pub mod backend_laws;
pub mod backend_step_laws;
