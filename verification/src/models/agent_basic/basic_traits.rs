use vstd::prelude::*;

use crate::models::agent_basic::basic_agent::{AgentState, BasicAgent};
use crate::models::llm::Message;

verus! {

/// What every agent can be asked: to start with an objective and a position,
/// to change its state, and to show its attributes.
pub trait BasicTraits: Sized {
    fn new(objective: String, position: String) -> Self;

    fn update_state(&mut self, new_state: AgentState);

    fn get_objective(&mut self) -> &String;

    fn get_position(&mut self) -> &String;

    fn get_state(&mut self) -> &AgentState;

    fn get_memory(&mut self) -> &Vec<Message>;
}

impl BasicTraits for BasicAgent {
    /// An agent at the start of its work: in discovery, with no memory.
    fn new(objective: String, position: String) -> (agent: BasicAgent)
        ensures
            agent.objective@ == objective@,
            agent.position@ == position@,
            agent.state == AgentState::Discovery,
            agent.memory@.len() == 0,
    {
        BasicAgent { objective, position, state: AgentState::Discovery, memory: Vec::new() }
    }

    /// Moves the agent to `new_state`; nothing else changes.
    fn update_state(&mut self, new_state: AgentState)
        ensures
            final(self).state == new_state,
            final(self).objective == old(self).objective,
            final(self).position == old(self).position,
            final(self).memory == old(self).memory,
    {
        self.state = new_state;
    }

    fn get_objective(&mut self) -> (objective: &String)
        ensures
            *objective == old(self).objective,
            *final(self) == *old(self),
    {
        &self.objective
    }

    fn get_position(&mut self) -> (position: &String)
        ensures
            *position == old(self).position,
            *final(self) == *old(self),
    {
        &self.position
    }

    fn get_state(&mut self) -> (state: &AgentState)
        ensures
            *state == old(self).state,
            *final(self) == *old(self),
    {
        &self.state
    }

    fn get_memory(&mut self) -> (memory: &Vec<Message>)
        ensures
            *memory == old(self).memory,
            *final(self) == *old(self),
    {
        &self.memory
    }
}

} // verus!
