use vstd::prelude::*;

use crate::models::llm::{Message, MessageView};

verus! {

/// Where an agent stands in its work.
#[derive(PartialEq, Eq, Structural, Debug, Clone, Copy)]
pub enum AgentState {
    Discovery,
    Working,
    UnitTesting,
    Finished,
}

/// What every agent has: its objective, its position, its state and the
/// messages it remembers.
#[derive(Debug)]
pub struct BasicAgent {
    pub objective: String,
    pub position: String,
    pub state: AgentState,
    pub memory: Vec<Message>,
}

/// An agent's basic attributes as text.
pub struct BasicAgentView {
    pub objective: Seq<char>,
    pub position: Seq<char>,
    pub state: AgentState,
    pub memory: Seq<MessageView>,
}

impl View for BasicAgent {
    type V = BasicAgentView;

    open spec fn view(&self) -> BasicAgentView {
        BasicAgentView {
            objective: self.objective@,
            position: self.position@,
            state: self.state,
            memory: self.memory@.map_values(|m: Message| m@),
        }
    }
}

} // verus!
