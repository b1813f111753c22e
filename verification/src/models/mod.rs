pub mod agent_basic;
pub mod agents;
pub mod agents_manager;
pub mod llm;
