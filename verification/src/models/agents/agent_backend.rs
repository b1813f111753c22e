use vstd::prelude::*;

use crate::base::command_line::PrintCommand;
use crate::base::general::{
    debug_option_string, debug_option_text, debug_str, debug_text, AiFunction, AiRequest,
    AiRequestView,
};
use crate::models::agent_basic::basic_agent::{AgentState, BasicAgent, BasicAgentView};
use crate::models::agents::agent_trait::{is_static_get, FactSheet, FactSheetView, RouteObject};

verus! {

/// The agent that writes the web server's code, builds it and runs it.
#[derive(Debug)]
pub struct AgentBackendDeveloper {
    pub attributes: BasicAgent,
    pub bug_errors: Option<String>,
    pub bug_count: u8,
}

/// A backend developer as values.
pub struct BackendView {
    pub attributes: BasicAgentView,
    pub bug_errors: Option<Seq<char>>,
    pub bug_count: u8,
}

impl View for AgentBackendDeveloper {
    type V = BackendView;

    open spec fn view(&self) -> BackendView {
        BackendView {
            attributes: self.attributes@,
            bug_errors: self.bug_errors.deep_view(),
            bug_count: self.bug_count,
        }
    }
}

/// The attributes of a backend developer that has not started.
pub open spec fn initial_backend_attributes() -> BasicAgentView {
    BasicAgentView {
        objective: "Develops backend code for webserver and json database"@,
        position: "Backend Developer"@,
        state: AgentState::Discovery,
        memory: Seq::empty(),
    }
}

/// The three ways in which the backend developer asks for code.
#[derive(PartialEq, Eq, Structural, Debug, Clone, Copy)]
pub enum CodeRequest {
    /// The first code, from the template and the description.
    Initial,
    /// Better code, from the template and the description, once the last
    /// build has passed.
    Improved,
    /// Code without the bugs that the last build reported.
    Fix,
}

/// Where the backend developer's work stands between two pieces of outside
/// work: what it waits for.
#[derive(PartialEq, Eq, Structural, Debug, Clone, Copy)]
pub enum BackendPhase {
    /// At the head of the work loop.
    LoopHead,
    /// Waiting for the code template, to ask for code.
    AwaitTemplate(CodeRequest),
    /// Waiting for the code that the language model wrote.
    AwaitCode(CodeRequest),
    /// Waiting for the code to be saved.
    AwaitSave(CodeRequest),
    /// Waiting for the notice that testing starts to be shown.
    AwaitTestingNotice,
    /// Waiting for the user to say whether the code is safe to run.
    AwaitConfirmation,
    /// Waiting for the notice that the build starts to be shown.
    AwaitBuildNotice,
    /// Waiting for the build's outcome.
    AwaitBuild,
    /// Waiting for the notice of a passed build to be shown.
    AwaitBuildSuccessNotice,
    /// Waiting for the notice of too many bugs to be shown.
    AwaitTooManyBugsNotice,
    /// The work was given up.
    Aborted,
    /// Waiting for the server's main file.
    AwaitExecMain,
    /// Waiting for the routes that the language model listed.
    AwaitEndpoints,
    /// Waiting for the notice that the server starts to be shown.
    AwaitServerNotice,
    /// Waiting for the server's run to end.
    AwaitRun,
    /// Waiting for the notice that tests are launched to be shown.
    AwaitLaunchNotice,
    /// Waiting for the pause before the tests to end.
    AwaitSleep,
}

/// What the outside work reports back to the backend developer.
#[derive(Debug)]
pub enum BackendEvent {
    /// The work was done; it has nothing to report.
    Proceed,
    /// The contents of the code template.
    CodeTemplate(String),
    /// The code that the language model wrote.
    Code(String),
    /// Whether the user said that the code is safe to run.
    Confirmed(bool),
    /// Whether the build passed, and what it wrote to its error stream.
    Built(bool, String),
    /// The contents of the server's main file.
    ExecMain(String),
    /// The routes that the language model listed.
    Endpoints(Vec<RouteObject>),
}

/// What the outside work reports, as values.
pub enum BackendEventView {
    Proceed,
    CodeTemplate(Seq<char>),
    Code(Seq<char>),
    Confirmed(bool),
    Built(bool, Seq<char>),
    ExecMain(Seq<char>),
    Endpoints(Seq<RouteObject>),
}

impl View for BackendEvent {
    type V = BackendEventView;

    open spec fn view(&self) -> BackendEventView {
        match self {
            BackendEvent::Proceed => BackendEventView::Proceed,
            BackendEvent::CodeTemplate(t) => BackendEventView::CodeTemplate(t@),
            BackendEvent::Code(c) => BackendEventView::Code(c@),
            BackendEvent::Confirmed(b) => BackendEventView::Confirmed(*b),
            BackendEvent::Built(ok, err) => BackendEventView::Built(*ok, err@),
            BackendEvent::ExecMain(m) => BackendEventView::ExecMain(m@),
            BackendEvent::Endpoints(routes) => BackendEventView::Endpoints(routes@),
        }
    }
}

/// The outside work that the backend developer asks for next.
#[derive(Debug)]
pub enum BackendAction {
    /// Read the code template.
    ReadCodeTemplate,
    /// Ask the language model for code; its answer is a JSON string.
    RequestCode(AiRequest),
    /// Save this code as the server's main file.
    SaveBackendCode(String),
    /// Show an agent message: its kind, the agent's position, the statement.
    Print(PrintCommand, String, String),
    /// Ask the user whether the code is safe to run.
    ConfirmSafeCode,
    /// Build the server.
    BuildProject,
    /// Read the server's main file.
    ReadExecMain,
    /// Ask the language model for the server's routes, as JSON.
    RequestEndpoints(AiRequest),
    /// Run the server.
    RunProject,
    /// Pause for this many seconds.
    Sleep(u64),
    /// Give the work up with this message.
    Abort(String),
    /// The work is done.
    Finish,
}

/// The outside work asked for, as values.
pub enum BackendActionView {
    ReadCodeTemplate,
    RequestCode(AiRequestView),
    SaveBackendCode(Seq<char>),
    Print(PrintCommand, Seq<char>, Seq<char>),
    ConfirmSafeCode,
    BuildProject,
    ReadExecMain,
    RequestEndpoints(AiRequestView),
    RunProject,
    Sleep(u64),
    Abort(Seq<char>),
    Finish,
}

impl View for BackendAction {
    type V = BackendActionView;

    open spec fn view(&self) -> BackendActionView {
        match self {
            BackendAction::ReadCodeTemplate => BackendActionView::ReadCodeTemplate,
            BackendAction::RequestCode(r) => BackendActionView::RequestCode(r@),
            BackendAction::SaveBackendCode(c) => BackendActionView::SaveBackendCode(c@),
            BackendAction::Print(cmd, pos, text) => BackendActionView::Print(*cmd, pos@, text@),
            BackendAction::ConfirmSafeCode => BackendActionView::ConfirmSafeCode,
            BackendAction::BuildProject => BackendActionView::BuildProject,
            BackendAction::ReadExecMain => BackendActionView::ReadExecMain,
            BackendAction::RequestEndpoints(r) => BackendActionView::RequestEndpoints(r@),
            BackendAction::RunProject => BackendActionView::RunProject,
            BackendAction::Sleep(secs) => BackendActionView::Sleep(*secs),
            BackendAction::Abort(msg) => BackendActionView::Abort(msg@),
            BackendAction::Finish => BackendActionView::Finish,
        }
    }
}

/// One step of the backend developer's work: its new values, the fact
/// sheet's, the new phase and the outside work asked for.
pub struct BackendStep {
    pub agent: BackendView,
    pub factsheet: FactSheetView,
    pub phase: BackendPhase,
    pub action: BackendActionView,
}

/// The context of a request for code from the template and the description.
pub open spec fn template_context(template: Seq<char>, description: Seq<char>) -> Seq<char> {
    "CODE TEMPLATE: "@ + debug_text(template) + " \n PROJECT_DESCRIPTION "@ + debug_text(description)
        + " \n"@
}

/// The context of a request for code without the bugs of the last build.
#[verifier::opaque]
pub open spec fn fix_context(code: Option<Seq<char>>, bugs: Option<Seq<char>>) -> Seq<char> {
    "BACKEND_CODE: "@ + debug_option_text(code) + " \n ERROR_BUGS "@ + debug_option_text(bugs)
        + " \n\n        THIS FUNCTION ONLY OUTPUTS CODE. JUST OUTPUT THE CODE."@
}

/// The context of a request for the routes of the server's main file.
pub open spec fn endpoints_context(main: Seq<char>) -> Seq<char> {
    "CODE_INPUT: "@ + debug_text(main)
}

/// The request for code of the given kind, with its context, made by an
/// agent at `position`.
pub open spec fn code_request(kind: CodeRequest, context: Seq<char>, position: Seq<char>) -> AiRequestView {
    AiRequestView {
        msg_context: context,
        agent_position: position,
        agent_operation: match kind {
            CodeRequest::Initial => "print_backend_webserver_code"@,
            CodeRequest::Improved => "print_improve_webserver_code"@,
            CodeRequest::Fix => "print_fixed_code"@,
        },
        function: match kind {
            CodeRequest::Initial => AiFunction::PrintBackendWebserverCode,
            CodeRequest::Improved => AiFunction::PrintImprovedWebserverCode,
            CodeRequest::Fix => AiFunction::PrintFixedCode,
        },
    }
}

/// The request for the routes of the server's main file `main`, made by an
/// agent at `position`.
pub open spec fn endpoints_request(main: Seq<char>, position: Seq<char>) -> AiRequestView {
    AiRequestView {
        msg_context: endpoints_context(main),
        agent_position: position,
        agent_operation: "print_rest_api_endpoints"@,
        function: AiFunction::PrintRestApiEndpoints,
    }
}

/// A unit testing message of the agent `a`.
pub open spec fn testing_notice(a: BackendView, text: Seq<char>) -> BackendActionView {
    BackendActionView::Print(PrintCommand::UnitTest, a.attributes.position, text)
}

/// The agent `a` with its state set to `state`.
pub open spec fn with_state(a: BackendView, state: AgentState) -> BackendView {
    BackendView { attributes: BasicAgentView { state, ..a.attributes }, ..a }
}

/// What the work loop does at its head: stop once the agent is finished,
/// otherwise start the work of its state.
pub open spec fn loop_head(a: BackendView, f: FactSheetView) -> BackendStep {
    let (phase, action) = match a.attributes.state {
        AgentState::Finished => (BackendPhase::LoopHead, BackendActionView::Finish),
        AgentState::Discovery => (
            BackendPhase::AwaitTemplate(CodeRequest::Initial),
            BackendActionView::ReadCodeTemplate,
        ),
        AgentState::Working => if a.bug_count == 0 {
            (BackendPhase::AwaitTemplate(CodeRequest::Improved), BackendActionView::ReadCodeTemplate)
        } else {
            (
                BackendPhase::AwaitCode(CodeRequest::Fix),
                BackendActionView::RequestCode(
                    code_request(
                        CodeRequest::Fix,
                        fix_context(f.backend_code, a.bug_errors),
                        a.attributes.position,
                    ),
                ),
            )
        },
        AgentState::UnitTesting => (
            BackendPhase::AwaitTestingNotice,
            testing_notice(a, "Backend Code Unit Testing Requesting user input"@),
        ),
    };
    BackendStep { agent: a, factsheet: f, phase, action }
}

/// Whether `e` is what the outside work reports in `phase`.
pub open spec fn accepts(phase: BackendPhase, e: BackendEventView) -> bool {
    match phase {
        BackendPhase::AwaitTemplate(_) => e is CodeTemplate,
        BackendPhase::AwaitCode(_) => e is Code,
        BackendPhase::AwaitConfirmation => e is Confirmed,
        BackendPhase::AwaitBuild => e is Built,
        BackendPhase::AwaitExecMain => e is ExecMain,
        BackendPhase::AwaitEndpoints => e is Endpoints,
        _ => e is Proceed,
    }
}

/// The bound that the work keeps on the bug count: it exceeds two only once
/// the work is being given up.
pub open spec fn bug_count_bounded(a: BackendView, phase: BackendPhase) -> bool {
    match phase {
        BackendPhase::AwaitTooManyBugsNotice | BackendPhase::Aborted => a.bug_count <= 3,
        _ => a.bug_count <= 2,
    }
}

/// One step of the backend developer's work: from the agent `a`, the fact
/// sheet `f` and the `phase` it is in, on what the outside work reported.
#[verifier::opaque]
pub open spec fn backend_step(
    a: BackendView,
    f: FactSheetView,
    phase: BackendPhase,
    e: BackendEventView,
) -> BackendStep {
    let position = a.attributes.position;
    match (phase, e) {
        (BackendPhase::LoopHead, _) => loop_head(a, f),
        (BackendPhase::AwaitTemplate(kind), BackendEventView::CodeTemplate(template)) => BackendStep {
            agent: a,
            factsheet: f,
            phase: BackendPhase::AwaitCode(kind),
            action: BackendActionView::RequestCode(
                code_request(kind, template_context(template, f.project_description), position),
            ),
        },
        (BackendPhase::AwaitCode(kind), BackendEventView::Code(code)) => BackendStep {
            agent: a,
            factsheet: FactSheetView { backend_code: Some(code), ..f },
            phase: BackendPhase::AwaitSave(kind),
            action: BackendActionView::SaveBackendCode(code),
        },
        (BackendPhase::AwaitSave(kind), _) => loop_head(
            with_state(
                a,
                if kind == CodeRequest::Initial {
                    AgentState::Working
                } else {
                    AgentState::UnitTesting
                },
            ),
            f,
        ),
        (BackendPhase::AwaitTestingNotice, _) => BackendStep {
            agent: a,
            factsheet: f,
            phase: BackendPhase::AwaitConfirmation,
            action: BackendActionView::ConfirmSafeCode,
        },
        (BackendPhase::AwaitConfirmation, BackendEventView::Confirmed(safe)) => BackendStep {
            agent: if safe {
                a
            } else {
                with_state(a, AgentState::Finished)
            },
            factsheet: f,
            phase: BackendPhase::AwaitBuildNotice,
            action: testing_notice(a, "Buildind Code Unit Testing : building project..."@),
        },
        (BackendPhase::AwaitBuildNotice, _) => BackendStep {
            agent: a,
            factsheet: f,
            phase: BackendPhase::AwaitBuild,
            action: BackendActionView::BuildProject,
        },
        (BackendPhase::AwaitBuild, BackendEventView::Built(success, stderr)) => if success {
            BackendStep {
                agent: BackendView { bug_count: 0, ..a },
                factsheet: f,
                phase: BackendPhase::AwaitBuildSuccessNotice,
                action: testing_notice(
                    a,
                    "Backend Code Unit Testing: Test server build successful..."@,
                ),
            }
        } else {
            let failed = BackendView {
                bug_count: (a.bug_count + 1) as u8,
                bug_errors: Some(stderr),
                ..a
            };
            if failed.bug_count > 2 {
                BackendStep {
                    agent: failed,
                    factsheet: f,
                    phase: BackendPhase::AwaitTooManyBugsNotice,
                    action: BackendActionView::Print(
                        PrintCommand::Issue,
                        position,
                        "Backend Code Unit Testing: Too many bugs find in code..."@,
                    ),
                }
            } else {
                loop_head(with_state(failed, AgentState::Working), f)
            }
        },
        (BackendPhase::AwaitTooManyBugsNotice, _) | (BackendPhase::Aborted, _) => BackendStep {
            agent: a,
            factsheet: f,
            phase: BackendPhase::Aborted,
            action: BackendActionView::Abort("Error: Too many bugs"@),
        },
        (BackendPhase::AwaitBuildSuccessNotice, _) => BackendStep {
            agent: a,
            factsheet: f,
            phase: BackendPhase::AwaitExecMain,
            action: BackendActionView::ReadExecMain,
        },
        (BackendPhase::AwaitExecMain, BackendEventView::ExecMain(main)) => BackendStep {
            agent: a,
            factsheet: f,
            phase: BackendPhase::AwaitEndpoints,
            action: BackendActionView::RequestEndpoints(endpoints_request(main, position)),
        },
        (BackendPhase::AwaitEndpoints, BackendEventView::Endpoints(routes)) => BackendStep {
            agent: a,
            factsheet: FactSheetView {
                api_endpoint_schema: Some(routes.filter(|r: RouteObject| is_static_get(r))),
                ..f
            },
            phase: BackendPhase::AwaitServerNotice,
            action: testing_notice(a, "Build Code Unit Testing: Starting Web Server...."@),
        },
        (BackendPhase::AwaitServerNotice, _) => BackendStep {
            agent: a,
            factsheet: f,
            phase: BackendPhase::AwaitRun,
            action: BackendActionView::RunProject,
        },
        (BackendPhase::AwaitRun, _) => BackendStep {
            agent: a,
            factsheet: f,
            phase: BackendPhase::AwaitLaunchNotice,
            action: testing_notice(
                a,
                "Build Code Unit Testing: Launching tests on web server in 5 seconds...."@,
            ),
        },
        (BackendPhase::AwaitLaunchNotice, _) => BackendStep {
            agent: a,
            factsheet: f,
            phase: BackendPhase::AwaitSleep,
            action: BackendActionView::Sleep(5),
        },
        (BackendPhase::AwaitSleep, _) => loop_head(with_state(a, AgentState::Finished), f),
        // An event that the phase does not wait for: `accepts` rules it out.
        _ => BackendStep { agent: a, factsheet: f, phase, action: BackendActionView::Finish },
    }
}

/// The routes of `routes` that can be tested by a plain request, in their
/// order.
pub fn check_endpoints(routes: Vec<RouteObject>) -> (checked: Vec<RouteObject>)
    ensures
        checked@ == routes@.filter(|r: RouteObject| is_static_get(r)),
        checked@ == routes@.filter(
            |r: RouteObject| r.method@ == "get"@ && r.is_route_dynamic@ == "false"@,
        ),
        forall|i: int|
            0 <= i < checked@.len() ==> (#[trigger] checked@[i]).method@ == "get"@
                && checked@[i].is_route_dynamic@ == "false"@,
        forall|r: RouteObject|
            routes@.contains(r) && r.method@ == "get"@ && r.is_route_dynamic@ == "false"@
                ==> checked@.contains(r),
{
    let ghost all = routes@;
    let ghost pred = |r: RouteObject| is_static_get(r);
    let get = String::from_str("get");
    let not_dynamic = String::from_str("false");
    let mut rest = routes;
    let mut checked: Vec<RouteObject> = Vec::new();
    assert(all.subrange(0, 0) =~= Seq::<RouteObject>::empty());
    assert(rest@ =~= all.subrange(0, all.len() as int));
    while rest.len() > 0
        invariant
            rest@.len() <= all.len(),
            rest@ == all.subrange(all.len() - rest@.len(), all.len() as int),
            checked@ == all.subrange(0, all.len() - rest@.len()).filter(pred),
            get@ == "get"@,
            not_dynamic@ == "false"@,
            pred == (|r: RouteObject| is_static_get(r)),
        decreases rest.len(),
    {
        let ghost done = all.len() - rest@.len();
        let route = rest.remove(0);
        proof {
            assert(route == all[done]);
            assert(all.subrange(0, done + 1) =~= all.subrange(0int, done).push(route));
            all.subrange(0int, done).lemma_filter_push(route, pred);
        }
        let keep = route.method.eq(&get) && route.is_route_dynamic.eq(&not_dynamic);
        assert(keep == pred(route));
        if keep {
            checked.push(route);
        }
        assert(rest@ =~= all.subrange(all.len() - rest@.len(), all.len() as int));
    }
    assert(all.subrange(0, all.len() as int) =~= all);
    proof {
        broadcast use vstd::seq_lib::group_filter_ensures;

        let plain = |r: RouteObject| r.method@ == "get"@ && r.is_route_dynamic@ == "false"@;
        assert(plain =~= pred);
        assert forall|i: int| 0 <= i < checked@.len() implies (#[trigger] checked@[i]).method@
            == "get"@ && checked@[i].is_route_dynamic@ == "false"@ by {
            assert(pred(checked@[i]));
        }
        assert forall|r: RouteObject|
            all.contains(r) && r.method@ == "get"@ && r.is_route_dynamic@ == "false"@ implies checked@.contains(
            r,
        ) by {
            let i = choose|i: int| 0 <= i < all.len() && all[i] == r;
            assert(pred(all[i]));
        }
    }
    checked
}

impl AgentBackendDeveloper {
    /// A backend developer that has not started: no bugs seen yet.
    pub fn new() -> (agent: AgentBackendDeveloper)
        ensures
            agent@ == (BackendView {
                attributes: initial_backend_attributes(),
                bug_errors: None,
                bug_count: 0,
            }),
            agent.attributes.objective@ == "Develops backend code for webserver and json database"@,
            agent.attributes.position@ == "Backend Developer"@,
            agent.attributes.state == AgentState::Discovery,
            agent.attributes.memory@.len() == 0,
            agent.bug_errors is None,
            agent.bug_count == 0,
    {
        let attributes: BasicAgent = BasicAgent {
            objective: String::from_str("Develops backend code for webserver and json database"),
            position: String::from_str("Backend Developer"),
            state: AgentState::Discovery,
            memory: Vec::new(),
        };
        let agent = AgentBackendDeveloper { attributes, bug_errors: None, bug_count: 0 };
        assert(agent.attributes@.memory =~= Seq::empty());
        agent
    }

    /// The agent's basic attributes.
    pub fn get_attributes_from_agent(&self) -> (attributes: &BasicAgent)
        ensures
            *attributes == self.attributes,
    {
        &self.attributes
    }

    /// The request for code of the given kind, with its context.
    fn request_code(&self, kind: CodeRequest, msg_context: String) -> (request: AiRequest)
        ensures
            request@ == code_request(kind, msg_context@, self.attributes.position@),
    {
        let (operation, function) = match kind {
            CodeRequest::Initial => (
                String::from_str("print_backend_webserver_code"),
                AiFunction::PrintBackendWebserverCode,
            ),
            CodeRequest::Improved => (
                String::from_str("print_improve_webserver_code"),
                AiFunction::PrintImprovedWebserverCode,
            ),
            CodeRequest::Fix => (String::from_str("print_fixed_code"), AiFunction::PrintFixedCode),
        };
        AiRequest {
            msg_context,
            agent_position: self.attributes.position.clone(),
            agent_operation: operation,
            function,
        }
    }

    /// A unit testing message of this agent.
    fn testing_notice(&self, text: &str) -> (action: BackendAction)
        ensures
            action@ == testing_notice(self@, text@),
    {
        BackendAction::Print(
            PrintCommand::UnitTest,
            self.attributes.position.clone(),
            String::from_str(text),
        )
    }

    /// What the work loop does at its head.
    fn loop_head(&self, factsheet: &FactSheet) -> (next: (BackendPhase, BackendAction))
        ensures
            next.0 == loop_head(self@, factsheet@).phase,
            next.1@ == loop_head(self@, factsheet@).action,
    {
        match self.attributes.state {
            AgentState::Finished => (BackendPhase::LoopHead, BackendAction::Finish),
            AgentState::Discovery => (
                BackendPhase::AwaitTemplate(CodeRequest::Initial),
                BackendAction::ReadCodeTemplate,
            ),
            AgentState::Working => {
                if self.bug_count == 0 {
                    (
                        BackendPhase::AwaitTemplate(CodeRequest::Improved),
                        BackendAction::ReadCodeTemplate,
                    )
                } else {
                    proof {
                        reveal(fix_context);
                    }
                    let context = String::from_str("BACKEND_CODE: ").concat(
                        debug_option_string(&factsheet.backend_code).as_str(),
                    ).concat(" \n ERROR_BUGS ").concat(
                        debug_option_string(&self.bug_errors).as_str(),
                    ).concat(" \n\n        THIS FUNCTION ONLY OUTPUTS CODE. JUST OUTPUT THE CODE.");
                    (
                        BackendPhase::AwaitCode(CodeRequest::Fix),
                        BackendAction::RequestCode(self.request_code(CodeRequest::Fix, context)),
                    )
                }
            },
            AgentState::UnitTesting => (
                BackendPhase::AwaitTestingNotice,
                self.testing_notice("Backend Code Unit Testing Requesting user input"),
            ),
        }
    }

    /// Whether `event` is what the outside work reports in `phase`.
    pub fn accepts(phase: BackendPhase, event: &BackendEvent) -> (ok: bool)
        ensures
            ok == accepts(phase, event@),
    {
        match phase {
            BackendPhase::AwaitTemplate(_) => matches!(event, BackendEvent::CodeTemplate(_)),
            BackendPhase::AwaitCode(_) => matches!(event, BackendEvent::Code(_)),
            BackendPhase::AwaitConfirmation => matches!(event, BackendEvent::Confirmed(_)),
            BackendPhase::AwaitBuild => matches!(event, BackendEvent::Built(_, _)),
            BackendPhase::AwaitExecMain => matches!(event, BackendEvent::ExecMain(_)),
            BackendPhase::AwaitEndpoints => matches!(event, BackendEvent::Endpoints(_)),
            _ => matches!(event, BackendEvent::Proceed),
        }
    }

    /// Whether the bug count is within the bound that `phase` allows.
    pub fn within_bug_limit(&self, phase: BackendPhase) -> (ok: bool)
        ensures
            ok == bug_count_bounded(self@, phase),
    {
        match phase {
            BackendPhase::AwaitTooManyBugsNotice | BackendPhase::Aborted => self.bug_count <= 3,
            _ => self.bug_count <= 2,
        }
    }

    /// One step of the work: takes what the outside work reported in `phase`,
    /// updates the agent and the fact sheet, and says what to do next.
    #[verifier::rlimit(40)]
    pub fn execute_step(
        &mut self,
        factsheet: &mut FactSheet,
        phase: BackendPhase,
        event: BackendEvent,
    ) -> (next: (BackendPhase, BackendAction))
        requires
            accepts(phase, event@),
            bug_count_bounded(old(self)@, phase),
        ensures
            final(self)@ == backend_step(old(self)@, old(factsheet)@, phase, event@).agent,
            final(factsheet)@ == backend_step(old(self)@, old(factsheet)@, phase, event@).factsheet,
            next.0 == backend_step(old(self)@, old(factsheet)@, phase, event@).phase,
            next.1@ == backend_step(old(self)@, old(factsheet)@, phase, event@).action,
            bug_count_bounded(final(self)@, next.0),
    {
        proof {
            reveal(backend_step);
        }
        match phase {
            BackendPhase::LoopHead => self.loop_head(factsheet),
            BackendPhase::AwaitTemplate(kind) => match event {
                BackendEvent::CodeTemplate(template) => {
                    let context = String::from_str("CODE TEMPLATE: ").concat(
                        debug_str(template.as_str()).as_str(),
                    ).concat(" \n PROJECT_DESCRIPTION ").concat(
                        debug_str(factsheet.project_description.as_str()).as_str(),
                    ).concat(" \n");
                    (BackendPhase::AwaitCode(kind), BackendAction::RequestCode(self.request_code(kind, context)))
                },
                _ => (phase, BackendAction::Finish),
            },
            BackendPhase::AwaitCode(kind) => match event {
                BackendEvent::Code(code) => {
                    factsheet.backend_code = Some(code.clone());
                    (BackendPhase::AwaitSave(kind), BackendAction::SaveBackendCode(code))
                },
                _ => (phase, BackendAction::Finish),
            },
            BackendPhase::AwaitSave(kind) => {
                if kind == CodeRequest::Initial {
                    self.attributes.state = AgentState::Working;
                } else {
                    self.attributes.state = AgentState::UnitTesting;
                }
                self.loop_head(factsheet)
            },
            BackendPhase::AwaitTestingNotice => (
                BackendPhase::AwaitConfirmation,
                BackendAction::ConfirmSafeCode,
            ),
            BackendPhase::AwaitConfirmation => match event {
                BackendEvent::Confirmed(safe) => {
                    let notice = self.testing_notice(
                        "Buildind Code Unit Testing : building project...",
                    );
                    if !safe {
                        self.attributes.state = AgentState::Finished;
                    }
                    (BackendPhase::AwaitBuildNotice, notice)
                },
                _ => (phase, BackendAction::Finish),
            },
            BackendPhase::AwaitBuildNotice => (BackendPhase::AwaitBuild, BackendAction::BuildProject),
            BackendPhase::AwaitBuild => match event {
                BackendEvent::Built(success, stderr) => {
                    if success {
                        self.bug_count = 0;
                        (
                            BackendPhase::AwaitBuildSuccessNotice,
                            self.testing_notice(
                                "Backend Code Unit Testing: Test server build successful...",
                            ),
                        )
                    } else {
                        self.bug_count = self.bug_count + 1;
                        self.bug_errors = Some(stderr);
                        if self.bug_count > 2 {
                            (
                                BackendPhase::AwaitTooManyBugsNotice,
                                BackendAction::Print(
                                    PrintCommand::Issue,
                                    self.attributes.position.clone(),
                                    String::from_str(
                                        "Backend Code Unit Testing: Too many bugs find in code...",
                                    ),
                                ),
                            )
                        } else {
                            self.attributes.state = AgentState::Working;
                            self.loop_head(factsheet)
                        }
                    }
                },
                _ => (phase, BackendAction::Finish),
            },
            BackendPhase::AwaitTooManyBugsNotice | BackendPhase::Aborted => (
                BackendPhase::Aborted,
                BackendAction::Abort(String::from_str("Error: Too many bugs")),
            ),
            BackendPhase::AwaitBuildSuccessNotice => (
                BackendPhase::AwaitExecMain,
                BackendAction::ReadExecMain,
            ),
            BackendPhase::AwaitExecMain => match event {
                BackendEvent::ExecMain(main) => {
                    let context = String::from_str("CODE_INPUT: ").concat(
                        debug_str(main.as_str()).as_str(),
                    );
                    let request = AiRequest {
                        msg_context: context,
                        agent_position: self.attributes.position.clone(),
                        agent_operation: String::from_str("print_rest_api_endpoints"),
                        function: AiFunction::PrintRestApiEndpoints,
                    };
                    (BackendPhase::AwaitEndpoints, BackendAction::RequestEndpoints(request))
                },
                _ => (phase, BackendAction::Finish),
            },
            BackendPhase::AwaitEndpoints => match event {
                BackendEvent::Endpoints(routes) => {
                    factsheet.api_endpoint_schema = Some(check_endpoints(routes));
                    (
                        BackendPhase::AwaitServerNotice,
                        self.testing_notice("Build Code Unit Testing: Starting Web Server...."),
                    )
                },
                _ => (phase, BackendAction::Finish),
            },
            BackendPhase::AwaitServerNotice => (BackendPhase::AwaitRun, BackendAction::RunProject),
            BackendPhase::AwaitRun => (
                BackendPhase::AwaitLaunchNotice,
                self.testing_notice(
                    "Build Code Unit Testing: Launching tests on web server in 5 seconds....",
                ),
            ),
            BackendPhase::AwaitLaunchNotice => (BackendPhase::AwaitSleep, BackendAction::Sleep(5)),
            BackendPhase::AwaitSleep => {
                self.attributes.state = AgentState::Finished;
                self.loop_head(factsheet)
            },
        }
    }
}

} // verus!
