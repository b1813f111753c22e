use vstd::prelude::*;

use crate::models::agents::agent_architect::AgentSolutionArchitect;
use crate::models::agents::agent_backend::AgentBackendDeveloper;

verus! {

/// serde_json's `Value`: a route's request body and response are carried
/// through as JSON values, and nothing here reads inside them.
#[verifier::external_type_specification]
#[verifier::external_body]
pub struct ExJsonValue(serde_json::Value);

/// One route of the web server's interface, as the language model lists it.
#[derive(Debug)]
pub struct RouteObject {
    pub is_route_dynamic: String,
    pub method: String,
    pub request_body: serde_json::Value,
    pub response: serde_json::Value,
    pub route: String,
}

/// A route that can be tested by a plain request: a `get` whose path has no
/// parameter.
pub open spec fn is_static_get(route: RouteObject) -> bool {
    route.method@ == "get"@ && route.is_route_dynamic@ == "false"@
}

/// A route can be tested by a plain request exactly when its method is
/// "get" and it is not dynamic.
pub proof fn lemma_static_get_is_a_plain_get(route: RouteObject)
    ensures
        is_static_get(route) <==> (route.method@ == "get"@ && route.is_route_dynamic@ == "false"@),
{
}

/// What the website needs.
#[derive(PartialEq, Eq, Structural, Debug, Clone, Copy)]
pub struct ProjectScope {
    pub is_crud_required: bool,
    pub is_user_login_and_logout: bool,
    pub is_external_urls_required: bool,
}

/// What the agents know of the project and have made for it.
#[derive(Debug)]
pub struct FactSheet {
    pub project_description: String,
    pub project_scope: Option<ProjectScope>,
    pub external_urls: Option<Vec<String>>,
    pub backend_code: Option<String>,
    pub api_endpoint_schema: Option<Vec<RouteObject>>,
}

/// A fact sheet as values.
pub struct FactSheetView {
    pub project_description: Seq<char>,
    pub project_scope: Option<ProjectScope>,
    pub external_urls: Option<Seq<Seq<char>>>,
    pub backend_code: Option<Seq<char>>,
    pub api_endpoint_schema: Option<Seq<RouteObject>>,
}

impl View for FactSheet {
    type V = FactSheetView;

    open spec fn view(&self) -> FactSheetView {
        FactSheetView {
            project_description: self.project_description@,
            project_scope: self.project_scope,
            external_urls: self.external_urls.deep_view(),
            backend_code: self.backend_code.deep_view(),
            api_endpoint_schema: match self.api_endpoint_schema {
                Some(routes) => Some(routes@),
                None => None,
            },
        }
    }
}

/// The agents that a managing agent leads.
#[derive(Debug)]
pub enum SpecialAgent {
    SolutionArchitect(AgentSolutionArchitect),
    BackendDeveloper(AgentBackendDeveloper),
}

} // verus!
