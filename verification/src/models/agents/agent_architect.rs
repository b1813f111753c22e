use vstd::prelude::*;

use crate::base::general::{AiFunction, AiRequest, AiRequestView};
use crate::models::agent_basic::basic_agent::{AgentState, BasicAgent, BasicAgentView};
use crate::models::agent_basic::basic_traits::BasicTraits;
use crate::models::agents::agent_trait::{FactSheet, FactSheetView, ProjectScope};

verus! {

/// The agent that works out what the website needs.
#[derive(Debug)]
pub struct AgentSolutionArchitect {
    pub attributes: BasicAgent,
}

/// The attributes of a solution architect that has not started.
pub open spec fn initial_architect_attributes() -> BasicAgentView {
    BasicAgentView {
        objective: "Gathers information and design solutions for website development"@,
        position: "Solution Architect"@,
        state: AgentState::Discovery,
        memory: Seq::empty(),
    }
}

impl AgentSolutionArchitect {
    /// A solution architect that has not started.
    pub fn new() -> (agent: AgentSolutionArchitect)
        ensures
            agent.attributes@ == initial_architect_attributes(),
            agent.attributes.objective@
                == "Gathers information and design solutions for website development"@,
            agent.attributes.position@ == "Solution Architect"@,
            agent.attributes.state == AgentState::Discovery,
            agent.attributes.memory@.len() == 0,
    {
        let attributes: BasicAgent = BasicAgent {
            objective: String::from_str(
                "Gathers information and design solutions for website development",
            ),
            position: String::from_str("Solution Architect"),
            state: AgentState::Discovery,
            memory: Vec::new(),
        };
        let agent = AgentSolutionArchitect { attributes };
        assert(agent.attributes@.memory =~= Seq::empty());
        agent
    }

    /// The request that asks the language model for the project's scope: the
    /// context is the project's description.
    pub fn project_scope_request(&self, factsheet: &FactSheet) -> (request: AiRequest)
        ensures
            request@ == (AiRequestView {
                msg_context: factsheet.project_description@,
                agent_position: self.attributes.position@,
                agent_operation: "print_project_scope"@,
                function: AiFunction::PrintProjectScope,
            }),
    {
        AiRequest {
            msg_context: factsheet.project_description.clone(),
            agent_position: self.attributes.position.clone(),
            agent_operation: String::from_str("print_project_scope"),
            function: AiFunction::PrintProjectScope,
        }
    }

    /// Records the scope that the language model gave: the fact sheet holds
    /// it, the architect is finished, and the scope is handed back.
    pub fn record_project_scope(
        &mut self,
        factsheet: &mut FactSheet,
        scope: ProjectScope,
    ) -> (recorded: ProjectScope)
        ensures
            recorded == scope,
            final(factsheet)@ == (FactSheetView { project_scope: Some(scope), ..old(factsheet)@ }),
            final(self).attributes@ == (BasicAgentView {
                state: AgentState::Finished,
                ..old(self).attributes@
            }),
    {
        factsheet.project_scope = Some(scope);
        self.attributes.update_state(AgentState::Finished);
        scope
    }
}

} // verus!
