use vstd::prelude::*;

use crate::base::general::{AiFunction, AiRequest, AiRequestView};
use crate::models::agent_basic::basic_agent::{AgentState, BasicAgent, BasicAgentView};
use crate::models::agents::agent_architect::{initial_architect_attributes, AgentSolutionArchitect};
use crate::models::agents::agent_backend::{initial_backend_attributes, AgentBackendDeveloper, BackendView};
use crate::models::agents::agent_trait::{FactSheet, FactSheetView, SpecialAgent};

verus! {

/// The agent that turns the user's request into a project and leads the
/// other agents through it.
#[derive(Debug)]
pub struct ManagingAgent {
    pub attributes: BasicAgent,
    pub factsheet: FactSheet,
    pub agents: Vec<SpecialAgent>,
}

/// The attributes of a managing agent.
pub open spec fn manager_attributes() -> BasicAgentView {
    BasicAgentView {
        objective: "Managing agents who are building an execellant website for the user"@,
        position: "Project Manager"@,
        state: AgentState::Discovery,
        memory: Seq::empty(),
    }
}

/// Whether `agent` is a solution architect that has not started.
pub open spec fn is_initial_architect(agent: SpecialAgent) -> bool {
    agent matches SpecialAgent::SolutionArchitect(a) && a.attributes@ == initial_architect_attributes()
}

/// Whether `agent` is a backend developer that has not started.
pub open spec fn is_initial_backend(agent: SpecialAgent) -> bool {
    agent matches SpecialAgent::BackendDeveloper(b) && b@ == (BackendView {
        attributes: initial_backend_attributes(),
        bug_errors: None,
        bug_count: 0,
    })
}

impl ManagingAgent {
    /// The request that turns the user's request into the project's goal.
    pub fn goal_request(usr_req: String) -> (request: AiRequest)
        ensures
            request@ == (AiRequestView {
                msg_context: usr_req@,
                agent_position: "Project Manager"@,
                agent_operation: "print_user_input_to_goal"@,
                function: AiFunction::PrintUserInputToGoal,
            }),
    {
        AiRequest {
            msg_context: usr_req,
            agent_position: String::from_str("Project Manager"),
            agent_operation: String::from_str("print_user_input_to_goal"),
            function: AiFunction::PrintUserInputToGoal,
        }
    }

    /// A managing agent for the project that `project_description`
    /// describes: nothing else is known of it yet, and it leads no agent yet.
    pub fn new(project_description: String) -> (agent: ManagingAgent)
        ensures
            agent.attributes@ == manager_attributes(),
            agent.attributes.objective@
                == "Managing agents who are building an execellant website for the user"@,
            agent.attributes.position@ == "Project Manager"@,
            agent.attributes.state == AgentState::Discovery,
            agent.attributes.memory@.len() == 0,
            agent.factsheet@ == (FactSheetView {
                project_description: project_description@,
                project_scope: None,
                external_urls: None,
                backend_code: None,
                api_endpoint_schema: None,
            }),
            agent.agents@.len() == 0,
    {
        let position: String = String::from_str("Project Manager");
        let attributes: BasicAgent = BasicAgent {
            objective: String::from_str(
                "Managing agents who are building an execellant website for the user",
            ),
            position,
            state: AgentState::Discovery,
            memory: Vec::new(),
        };
        let factsheet: FactSheet = FactSheet {
            project_description,
            project_scope: None,
            external_urls: None,
            backend_code: None,
            api_endpoint_schema: None,
        };
        let agent = ManagingAgent { attributes, factsheet, agents: Vec::new() };
        assert(agent.attributes@.memory =~= Seq::empty());
        agent
    }

    fn add_agents(&mut self, agent: SpecialAgent)
        ensures
            final(self).agents@ == old(self).agents@.push(agent),
            final(self).attributes == old(self).attributes,
            final(self).factsheet == old(self).factsheet,
    {
        self.agents.push(agent);
    }

    /// Adds the agents that build the project: a solution architect, then a
    /// backend developer, both not started.
    pub fn create_agents(&mut self)
        ensures
            final(self).agents@.len() == old(self).agents@.len() + 2,
            final(self).agents@.subrange(0, old(self).agents@.len() as int) == old(self).agents@,
            is_initial_architect(final(self).agents@[old(self).agents@.len() as int]),
            is_initial_backend(final(self).agents@[old(self).agents@.len() + 1int]),
            final(self).agents@[old(self).agents@.len() as int] matches SpecialAgent::SolutionArchitect(
                architect,
            ) && architect.attributes.position@ == "Solution Architect"@
                && architect.attributes.objective@
                == "Gathers information and design solutions for website development"@
                && architect.attributes.state == AgentState::Discovery
                && architect.attributes.memory@.len() == 0,
            final(self).agents@[old(self).agents@.len() + 1int] matches SpecialAgent::BackendDeveloper(
                developer,
            ) && developer.attributes.position@ == "Backend Developer"@
                && developer.attributes.objective@
                == "Develops backend code for webserver and json database"@
                && developer.attributes.state == AgentState::Discovery
                && developer.attributes.memory@.len() == 0 && developer.bug_errors is None
                && developer.bug_count == 0,
            final(self).attributes == old(self).attributes,
            final(self).factsheet == old(self).factsheet,
    {
        self.add_agents(SpecialAgent::SolutionArchitect(AgentSolutionArchitect::new()));
        self.add_agents(SpecialAgent::BackendDeveloper(AgentBackendDeveloper::new()));
    }
}

} // verus!
