use rust_autogpt::base::command_line::PrintCommand;
use rust_autogpt::base::general::AiFunction;
use rust_autogpt::models::agent_basic::basic_agent::{AgentState, BasicAgent};
use rust_autogpt::models::agent_basic::basic_traits::BasicTraits;
use rust_autogpt::models::agents::agent_architect::AgentSolutionArchitect;
use rust_autogpt::models::agents::agent_backend::{
    check_endpoints, AgentBackendDeveloper, BackendAction, BackendEvent, BackendPhase, CodeRequest,
};
use rust_autogpt::models::agents::agent_trait::{FactSheet, ProjectScope, RouteObject, SpecialAgent};
use rust_autogpt::models::agents_manager::managing_agent::ManagingAgent;
use serde_json::Value;

fn factsheet(description: &str) -> FactSheet {
    FactSheet {
        project_description: description.to_string(),
        project_scope: None,
        external_urls: None,
        backend_code: None,
        api_endpoint_schema: None,
    }
}

fn route(method: &str, dynamic: &str, path: &str) -> RouteObject {
    RouteObject {
        is_route_dynamic: dynamic.to_string(),
        method: method.to_string(),
        request_body: Value::Null,
        response: Value::String("ok".to_string()),
        route: path.to_string(),
    }
}

fn step(
    agent: &mut AgentBackendDeveloper,
    fs: &mut FactSheet,
    phase: BackendPhase,
    event: BackendEvent,
) -> (BackendPhase, BackendAction) {
    assert!(AgentBackendDeveloper::accepts(phase, &event));
    agent.execute_step(fs, phase, event)
}

#[test]
fn basic_agent_traits() {
    let mut agent = BasicAgent::new("obj".to_string(), "pos".to_string());
    assert_eq!(agent.state, AgentState::Discovery);
    assert!(agent.memory.is_empty());
    agent.update_state(AgentState::Working);
    assert_eq!(*agent.get_state(), AgentState::Working);
    assert_eq!(agent.get_objective(), "obj");
    assert_eq!(agent.get_position(), "pos");
    assert!(agent.get_memory().is_empty());
}

#[test]
fn new_backend_developer() {
    let agent = AgentBackendDeveloper::new();
    assert_eq!(agent.attributes.objective, "Develops backend code for webserver and json database");
    assert_eq!(agent.attributes.position, "Backend Developer");
    assert_eq!(agent.attributes.state, AgentState::Discovery);
    assert!(agent.attributes.memory.is_empty());
    assert_eq!(agent.bug_errors, None);
    assert_eq!(agent.bug_count, 0);
    assert_eq!(agent.get_attributes_from_agent().position, "Backend Developer");
}

#[test]
fn new_solution_architect() {
    let agent = AgentSolutionArchitect::new();
    assert_eq!(
        agent.attributes.objective,
        "Gathers information and design solutions for website development"
    );
    assert_eq!(agent.attributes.position, "Solution Architect");
    assert_eq!(agent.attributes.state, AgentState::Discovery);
    assert!(agent.attributes.memory.is_empty());
}

#[test]
fn architect_asks_for_scope_and_records_it() {
    let mut agent = AgentSolutionArchitect::new();
    let mut fs = factsheet("build a website that tracks fitness");
    let req = agent.project_scope_request(&fs);
    assert_eq!(req.msg_context, "build a website that tracks fitness");
    assert_eq!(req.agent_position, "Solution Architect");
    assert_eq!(req.agent_operation, "print_project_scope");
    assert_eq!(req.function, AiFunction::PrintProjectScope);
    let scope = ProjectScope {
        is_crud_required: true,
        is_user_login_and_logout: false,
        is_external_urls_required: true,
    };
    let back = agent.record_project_scope(&mut fs, scope);
    assert_eq!(back, scope);
    assert_eq!(fs.project_scope, Some(scope));
    assert_eq!(fs.project_description, "build a website that tracks fitness");
    assert_eq!(agent.attributes.state, AgentState::Finished);
}

#[test]
fn static_get_routes_are_kept_in_order() {
    let routes = vec![
        route("get", "false", "/a"),
        route("post", "false", "/b"),
        route("get", "true", "/c/{id}"),
        route("get", "false", "/d"),
        route("GET", "false", "/e"),
    ];
    let kept = check_endpoints(routes);
    let paths: Vec<&str> = kept.iter().map(|r| r.route.as_str()).collect();
    assert_eq!(paths, vec!["/a", "/d"]);
    assert!(check_endpoints(vec![]).is_empty());
}

#[test]
fn smooth_backend_run_finishes() {
    let mut agent = AgentBackendDeveloper::new();
    let mut fs = factsheet("build a blog");

    let (p, a) = step(&mut agent, &mut fs, BackendPhase::LoopHead, BackendEvent::Proceed);
    assert_eq!(p, BackendPhase::AwaitTemplate(CodeRequest::Initial));
    assert!(matches!(a, BackendAction::ReadCodeTemplate));

    let (p, a) = step(&mut agent, &mut fs, p, BackendEvent::CodeTemplate("tmpl".to_string()));
    assert_eq!(p, BackendPhase::AwaitCode(CodeRequest::Initial));
    match a {
        BackendAction::RequestCode(req) => {
            assert_eq!(
                req.msg_context,
                "CODE TEMPLATE: \"tmpl\" \n PROJECT_DESCRIPTION \"build a blog\" \n"
            );
            assert_eq!(req.agent_position, "Backend Developer");
            assert_eq!(req.agent_operation, "print_backend_webserver_code");
            assert_eq!(req.function, AiFunction::PrintBackendWebserverCode);
        }
        other => panic!("unexpected {:?}", other),
    }

    let (p, a) = step(&mut agent, &mut fs, p, BackendEvent::Code("code v1".to_string()));
    assert!(matches!(a, BackendAction::SaveBackendCode(ref c) if c == "code v1"));
    assert_eq!(fs.backend_code, Some("code v1".to_string()));

    let (p, a) = step(&mut agent, &mut fs, p, BackendEvent::Proceed);
    assert_eq!(agent.attributes.state, AgentState::Working);
    assert_eq!(p, BackendPhase::AwaitTemplate(CodeRequest::Improved));
    assert!(matches!(a, BackendAction::ReadCodeTemplate));

    let (p, a) = step(&mut agent, &mut fs, p, BackendEvent::CodeTemplate("tmpl".to_string()));
    match a {
        BackendAction::RequestCode(req) => {
            assert_eq!(req.agent_operation, "print_improve_webserver_code");
            assert_eq!(req.function, AiFunction::PrintImprovedWebserverCode);
        }
        other => panic!("unexpected {:?}", other),
    }
    let (p, _) = step(&mut agent, &mut fs, p, BackendEvent::Code("code v2".to_string()));
    let (p, a) = step(&mut agent, &mut fs, p, BackendEvent::Proceed);
    assert_eq!(agent.attributes.state, AgentState::UnitTesting);
    match a {
        BackendAction::Print(cmd, pos, text) => {
            assert_eq!(cmd, PrintCommand::UnitTest);
            assert_eq!(pos, "Backend Developer");
            assert_eq!(text, "Backend Code Unit Testing Requesting user input");
        }
        other => panic!("unexpected {:?}", other),
    }
    let (p, a) = step(&mut agent, &mut fs, p, BackendEvent::Proceed);
    assert!(matches!(a, BackendAction::ConfirmSafeCode));
    let (p, a) = step(&mut agent, &mut fs, p, BackendEvent::Confirmed(true));
    assert!(matches!(a, BackendAction::Print(_, _, ref t) if t == "Buildind Code Unit Testing : building project..."));
    let (p, a) = step(&mut agent, &mut fs, p, BackendEvent::Proceed);
    assert!(matches!(a, BackendAction::BuildProject));
    let (p, a) = step(&mut agent, &mut fs, p, BackendEvent::Built(true, String::new()));
    assert!(matches!(a, BackendAction::Print(_, _, ref t) if t == "Backend Code Unit Testing: Test server build successful..."));
    let (p, a) = step(&mut agent, &mut fs, p, BackendEvent::Proceed);
    assert!(matches!(a, BackendAction::ReadExecMain));
    let (p, a) = step(&mut agent, &mut fs, p, BackendEvent::ExecMain("fn main() {}".to_string()));
    match a {
        BackendAction::RequestEndpoints(req) => {
            assert_eq!(req.msg_context, "CODE_INPUT: \"fn main() {}\"");
            assert_eq!(req.agent_operation, "print_rest_api_endpoints");
            assert_eq!(req.function, AiFunction::PrintRestApiEndpoints);
        }
        other => panic!("unexpected {:?}", other),
    }
    let routes = vec![route("get", "false", "/health"), route("post", "false", "/item")];
    let (p, a) = step(&mut agent, &mut fs, p, BackendEvent::Endpoints(routes));
    assert!(matches!(a, BackendAction::Print(_, _, ref t) if t == "Build Code Unit Testing: Starting Web Server...."));
    let schema = fs.api_endpoint_schema.as_ref().unwrap();
    assert_eq!(schema.len(), 1);
    assert_eq!(schema[0].route, "/health");
    let (p, a) = step(&mut agent, &mut fs, p, BackendEvent::Proceed);
    assert!(matches!(a, BackendAction::RunProject));
    let (p, a) = step(&mut agent, &mut fs, p, BackendEvent::Proceed);
    assert!(matches!(a, BackendAction::Print(_, _, ref t) if t == "Build Code Unit Testing: Launching tests on web server in 5 seconds...."));
    let (p, a) = step(&mut agent, &mut fs, p, BackendEvent::Proceed);
    assert!(matches!(a, BackendAction::Sleep(5)));
    let (p, a) = step(&mut agent, &mut fs, p, BackendEvent::Proceed);
    assert_eq!(p, BackendPhase::LoopHead);
    assert!(matches!(a, BackendAction::Finish));
    assert_eq!(agent.attributes.state, AgentState::Finished);
    assert_eq!(fs.backend_code, Some("code v2".to_string()));
    assert_eq!(agent.bug_count, 0);
    assert_eq!(fs.project_description, "build a blog");
    assert!(fs.project_scope.is_none());
    assert_eq!(agent.attributes.position, "Backend Developer");
    assert_eq!(agent.attributes.objective, "Develops backend code for webserver and json database");

    // A finished agent stops and changes nothing.
    let (p2, a2) = step(&mut agent, &mut fs, p, BackendEvent::Proceed);
    assert_eq!(p2, BackendPhase::LoopHead);
    assert!(matches!(a2, BackendAction::Finish));
}

fn fail_build_and_fix(
    agent: &mut AgentBackendDeveloper,
    fs: &mut FactSheet,
    errors: &str,
    fix: &str,
) -> BackendPhase {
    let (p, a) = step(agent, fs, BackendPhase::AwaitBuild, BackendEvent::Built(false, errors.to_string()));
    assert_eq!(agent.attributes.state, AgentState::Working);
    assert_eq!(agent.bug_errors, Some(errors.to_string()));
    match a {
        BackendAction::RequestCode(req) => {
            assert_eq!(req.agent_operation, "print_fixed_code");
            assert_eq!(req.function, AiFunction::PrintFixedCode);
            assert_eq!(
                req.msg_context,
                format!(
                    "BACKEND_CODE: {:?} \n ERROR_BUGS {:?} \n\n        THIS FUNCTION ONLY OUTPUTS CODE. JUST OUTPUT THE CODE.",
                    fs.backend_code,
                    Some(errors.to_string())
                )
            );
        }
        other => panic!("unexpected {:?}", other),
    }
    let (p, _) = step(agent, fs, p, BackendEvent::Code(fix.to_string()));
    let (p, _) = step(agent, fs, p, BackendEvent::Proceed);
    let (p, _) = step(agent, fs, p, BackendEvent::Proceed);
    let (p, _) = step(agent, fs, p, BackendEvent::Confirmed(true));
    let (p, a) = step(agent, fs, p, BackendEvent::Proceed);
    assert!(matches!(a, BackendAction::BuildProject));
    assert_eq!(fs.backend_code, Some(fix.to_string()));
    p
}

#[test]
fn third_failed_build_gives_up() {
    let mut agent = AgentBackendDeveloper::new();
    agent.attributes.state = AgentState::UnitTesting;
    let mut fs = factsheet("build a blog");
    fs.backend_code = Some("code \"v1\"".to_string());

    let p = fail_build_and_fix(&mut agent, &mut fs, "error[E0425]", "fix 1");
    assert_eq!(agent.bug_count, 1);
    assert_eq!(p, BackendPhase::AwaitBuild);
    let p = fail_build_and_fix(&mut agent, &mut fs, "error[E0308]", "fix 2");
    assert_eq!(agent.bug_count, 2);
    assert_eq!(fs.backend_code, Some("fix 2".to_string()));

    let (p, a) = step(&mut agent, &mut fs, p, BackendEvent::Built(false, "still broken".to_string()));
    assert_eq!(agent.bug_count, 3);
    assert_eq!(p, BackendPhase::AwaitTooManyBugsNotice);
    match a {
        BackendAction::Print(cmd, _, text) => {
            assert_eq!(cmd, PrintCommand::Issue);
            assert_eq!(text, "Backend Code Unit Testing: Too many bugs find in code...");
        }
        other => panic!("unexpected {:?}", other),
    }
    let (p, a) = step(&mut agent, &mut fs, p, BackendEvent::Proceed);
    assert_eq!(p, BackendPhase::Aborted);
    assert!(matches!(a, BackendAction::Abort(ref m) if m == "Error: Too many bugs"));
}

#[test]
fn passed_build_clears_bug_count() {
    let mut agent = AgentBackendDeveloper::new();
    agent.attributes.state = AgentState::UnitTesting;
    let mut fs = factsheet("d");
    let p = fail_build_and_fix(&mut agent, &mut fs, "e", "f");
    assert_eq!(agent.bug_count, 1);
    let (_, a) = step(&mut agent, &mut fs, p, BackendEvent::Built(true, String::new()));
    assert_eq!(agent.bug_count, 0);
    assert!(matches!(a, BackendAction::Print(PrintCommand::UnitTest, _, _)));
}

#[test]
fn refusal_marks_finished_but_still_builds() {
    let mut agent = AgentBackendDeveloper::new();
    let mut fs = factsheet("d");
    let (p, a) = step(&mut agent, &mut fs, BackendPhase::AwaitConfirmation, BackendEvent::Confirmed(false));
    assert_eq!(agent.attributes.state, AgentState::Finished);
    assert!(matches!(a, BackendAction::Print(..)));
    let (_, a) = step(&mut agent, &mut fs, p, BackendEvent::Proceed);
    assert!(matches!(a, BackendAction::BuildProject));
}

#[test]
fn template_context_quotes_and_escapes() {
    let mut agent = AgentBackendDeveloper::new();
    let mut fs = factsheet("say \"hi\"\n");
    let (_, a) = step(
        &mut agent,
        &mut fs,
        BackendPhase::AwaitTemplate(CodeRequest::Initial),
        BackendEvent::CodeTemplate("a\\b".to_string()),
    );
    match a {
        BackendAction::RequestCode(req) => assert_eq!(
            req.msg_context,
            "CODE TEMPLATE: \"a\\\\b\" \n PROJECT_DESCRIPTION \"say \\\"hi\\\"\\n\" \n"
        ),
        other => panic!("unexpected {:?}", other),
    }
}

#[test]
fn bug_limit_depends_on_phase() {
    let mut agent = AgentBackendDeveloper::new();
    assert!(agent.within_bug_limit(BackendPhase::LoopHead));
    agent.bug_count = 3;
    assert!(!agent.within_bug_limit(BackendPhase::AwaitBuild));
    assert!(agent.within_bug_limit(BackendPhase::Aborted));
}

#[test]
fn mismatched_event_is_not_accepted() {
    assert!(!AgentBackendDeveloper::accepts(BackendPhase::AwaitBuild, &BackendEvent::Proceed));
    assert!(!AgentBackendDeveloper::accepts(
        BackendPhase::LoopHead,
        &BackendEvent::Code(String::new())
    ));
    assert!(AgentBackendDeveloper::accepts(
        BackendPhase::AwaitEndpoints,
        &BackendEvent::Endpoints(vec![])
    ));
}

#[test]
fn managing_agent_new_and_goal_request() {
    let req = ManagingAgent::goal_request("need a fitness app".to_string());
    assert_eq!(req.msg_context, "need a fitness app");
    assert_eq!(req.agent_position, "Project Manager");
    assert_eq!(req.agent_operation, "print_user_input_to_goal");
    assert_eq!(req.function, AiFunction::PrintUserInputToGoal);

    let m = ManagingAgent::new("build a website that tracks fitness".to_string());
    assert_eq!(
        m.attributes.objective,
        "Managing agents who are building an execellant website for the user"
    );
    assert_eq!(m.attributes.position, "Project Manager");
    assert_eq!(m.attributes.state, AgentState::Discovery);
    assert_eq!(m.factsheet.project_description, "build a website that tracks fitness");
    assert!(m.factsheet.project_scope.is_none());
    assert!(m.factsheet.backend_code.is_none());
    assert!(m.agents.is_empty());
}

#[test]
fn managing_agent_creates_architect_then_backend() {
    let mut m = ManagingAgent::new("d".to_string());
    m.create_agents();
    assert_eq!(m.agents.len(), 2);
    assert!(matches!(&m.agents[0], SpecialAgent::SolutionArchitect(a) if a.attributes.position == "Solution Architect"));
    assert!(matches!(&m.agents[1], SpecialAgent::BackendDeveloper(b) if b.bug_count == 0 && b.attributes.position == "Backend Developer"));
}
