use vstd::prelude::*;

use crate::base::command_line::PrintCommand;
use crate::base::general::{debug_option_text, debug_text, AiFunction, AiRequestView};
use crate::models::agent_basic::basic_agent::AgentState;
use crate::models::agents::agent_backend::{
    accepts, backend_step, bug_count_bounded, fix_context, BackendActionView, BackendEventView, BackendPhase, BackendView,
    CodeRequest,
};
use crate::models::agents::agent_trait::{FactSheetView, RouteObject};

verus! {

/// The request for code without the bugs of the last build, by an agent at
/// `position`, as the backend developer sends it: the context names the
/// fact sheet's code and the bugs, each as its `{:?}` text.
pub open spec fn expected_fix_request(
    code: Option<Seq<char>>,
    bugs: Option<Seq<char>>,
    position: Seq<char>,
) -> AiRequestView {
    AiRequestView {
        msg_context: "BACKEND_CODE: "@ + debug_option_text(code) + " \n ERROR_BUGS "@
            + debug_option_text(bugs)
            + " \n\n        THIS FUNCTION ONLY OUTPUTS CODE. JUST OUTPUT THE CODE."@,
        agent_position: position,
        agent_operation: "print_fixed_code"@,
        function: AiFunction::PrintFixedCode,
    }
}

/// The fact sheet's code changes only when the language model's code
/// arrives, and then becomes that code; the routes change only when the
/// listed routes arrive; nothing else in the fact sheet ever changes.
pub proof fn lemma_step_changes_only_code_and_routes(
    a: BackendView,
    f: FactSheetView,
    phase: BackendPhase,
    e: BackendEventView,
)
    ensures
        ({
            let s = backend_step(a, f, phase, e);
            &&& s.factsheet.project_description == f.project_description
            &&& s.factsheet.project_scope == f.project_scope
            &&& s.factsheet.external_urls == f.external_urls
            &&& s.factsheet.backend_code == (match (phase, e) {
                (BackendPhase::AwaitCode(_), BackendEventView::Code(code)) => Some(code),
                _ => f.backend_code,
            })
            &&& !(phase is AwaitEndpoints && e is Endpoints) ==> s.factsheet.api_endpoint_schema
                == f.api_endpoint_schema
        }),
{
    reveal(backend_step);
}

/// The bug count changes only on a build's outcome: a passed build sets it
/// to zero, a failed one adds one. The recorded bugs change only on a failed
/// build, and become its error output.
pub proof fn lemma_step_changes_bugs_only_on_builds(
    a: BackendView,
    f: FactSheetView,
    phase: BackendPhase,
    e: BackendEventView,
)
    requires
        a.bug_count <= 2,
    ensures
        ({
            let s = backend_step(a, f, phase, e);
            &&& s.agent.bug_count == (match (phase, e) {
                (BackendPhase::AwaitBuild, BackendEventView::Built(true, _)) => 0,
                (BackendPhase::AwaitBuild, BackendEventView::Built(false, _)) => a.bug_count + 1,
                _ => a.bug_count as int,
            })
            &&& s.agent.bug_errors == (match (phase, e) {
                (BackendPhase::AwaitBuild, BackendEventView::Built(false, err)) => Some(err),
                _ => a.bug_errors,
            })
        }),
{
    reveal(backend_step);
}

/// The agent's state changes only when code has been saved (to work after
/// the first code, to testing after any other), when the user refuses to
/// run the code (finished), when a build fails below the limit (back to
/// work), and after the pause before the tests (finished).
pub proof fn lemma_step_changes_state_only_at_turns(
    a: BackendView,
    f: FactSheetView,
    phase: BackendPhase,
    e: BackendEventView,
)
    requires
        a.bug_count <= 2,
    ensures
        ({
            let s = backend_step(a, f, phase, e);
            s.agent.attributes.state == (match (phase, e) {
                (BackendPhase::AwaitSave(CodeRequest::Initial), _) => AgentState::Working,
                (BackendPhase::AwaitSave(_), _) => AgentState::UnitTesting,
                (BackendPhase::AwaitConfirmation, BackendEventView::Confirmed(false)) => AgentState::Finished,
                (BackendPhase::AwaitBuild, BackendEventView::Built(false, _)) => if a.bug_count < 2 {
                    AgentState::Working
                } else {
                    a.attributes.state
                },
                (BackendPhase::AwaitSleep, _) => AgentState::Finished,
                _ => a.attributes.state,
            })
        }),
{
    reveal(backend_step);
}

/// At the head of its work loop the agent does the work of its state: stop
/// once finished, fetch the template in discovery and in work without bugs,
/// ask for a fix of the fact sheet's code with the recorded bugs in work
/// with bugs, and announce testing in testing. Nothing changes.
pub proof fn lemma_loop_head_starts_the_work_of_the_state(
    a: BackendView,
    f: FactSheetView,
    e: BackendEventView,
)
    ensures
        ({
            let s = backend_step(a, f, BackendPhase::LoopHead, e);
            &&& s.agent == a
            &&& s.factsheet == f
            &&& a.attributes.state == AgentState::Finished ==> s.phase == BackendPhase::LoopHead
                && s.action == BackendActionView::Finish
            &&& a.attributes.state == AgentState::Discovery ==> s.phase == BackendPhase::AwaitTemplate(
                CodeRequest::Initial,
            ) && s.action == BackendActionView::ReadCodeTemplate
            &&& a.attributes.state == AgentState::Working && a.bug_count == 0 ==> s.phase
                == BackendPhase::AwaitTemplate(CodeRequest::Improved) && s.action
                == BackendActionView::ReadCodeTemplate
            &&& a.attributes.state == AgentState::Working && a.bug_count != 0 ==> s.phase
                == BackendPhase::AwaitCode(CodeRequest::Fix) && s.action
                == BackendActionView::RequestCode(
                expected_fix_request(f.backend_code, a.bug_errors, a.attributes.position),
            )
            &&& a.attributes.state == AgentState::UnitTesting ==> s.phase
                == BackendPhase::AwaitTestingNotice && s.action == BackendActionView::Print(
                PrintCommand::UnitTest,
                a.attributes.position,
                "Backend Code Unit Testing Requesting user input"@,
            )
        }),
{
    reveal(backend_step);
    reveal(fix_context);
}

/// With the template, the agent asks for code whose context is the
/// template's `{:?}` text and then the project description's, for every
/// kind of request, under the operation and AI function of that kind.
pub proof fn lemma_template_goes_first_in_the_code_request(
    a: BackendView,
    f: FactSheetView,
    kind: CodeRequest,
    template: Seq<char>,
)
    ensures
        ({
            let s = backend_step(
                a,
                f,
                BackendPhase::AwaitTemplate(kind),
                BackendEventView::CodeTemplate(template),
            );
            &&& s.agent == a
            &&& s.factsheet == f
            &&& s.phase == BackendPhase::AwaitCode(kind)
            &&& s.action == BackendActionView::RequestCode(
                AiRequestView {
                    msg_context: "CODE TEMPLATE: "@ + debug_text(template)
                        + " \n PROJECT_DESCRIPTION "@ + debug_text(f.project_description)
                        + " \n"@,
                    agent_position: a.attributes.position,
                    agent_operation: match kind {
                        CodeRequest::Initial => "print_backend_webserver_code"@,
                        CodeRequest::Improved => "print_improve_webserver_code"@,
                        CodeRequest::Fix => "print_fixed_code"@,
                    },
                    function: match kind {
                        CodeRequest::Initial => AiFunction::PrintBackendWebserverCode,
                        CodeRequest::Improved => AiFunction::PrintImprovedWebserverCode,
                        CodeRequest::Fix => AiFunction::PrintFixedCode,
                    },
                },
            )
        }),
{
    reveal(backend_step);
}

/// After a save, the agent goes on with the work of its new state: after the
/// first code it fetches the template again (or asks for a fix where bugs
/// are recorded); after improved or fixed code it announces testing.
pub proof fn lemma_save_leads_on(a: BackendView, f: FactSheetView, kind: CodeRequest)
    ensures
        ({
            let s = backend_step(a, f, BackendPhase::AwaitSave(kind), BackendEventView::Proceed);
            &&& s.factsheet == f
            &&& s.agent.bug_count == a.bug_count
            &&& s.agent.bug_errors == a.bug_errors
            &&& kind == CodeRequest::Initial && a.bug_count == 0 ==> s.phase
                == BackendPhase::AwaitTemplate(CodeRequest::Improved) && s.action
                == BackendActionView::ReadCodeTemplate
            &&& kind == CodeRequest::Initial && a.bug_count != 0 ==> s.phase == BackendPhase::AwaitCode(
                CodeRequest::Fix,
            ) && s.action == BackendActionView::RequestCode(
                expected_fix_request(f.backend_code, a.bug_errors, a.attributes.position),
            )
            &&& kind != CodeRequest::Initial ==> s.phase == BackendPhase::AwaitTestingNotice
                && s.action == BackendActionView::Print(
                PrintCommand::UnitTest,
                a.attributes.position,
                "Backend Code Unit Testing Requesting user input"@,
            )
        }),
{
    reveal(backend_step);
    reveal(fix_context);
}

/// Testing asks the user, then announces the build, then builds; the user's
/// answer changes only whether the agent is marked finished.
pub proof fn lemma_testing_asks_then_builds(a: BackendView, f: FactSheetView, safe: bool)
    ensures
        ({
            let t = backend_step(a, f, BackendPhase::AwaitTestingNotice, BackendEventView::Proceed);
            let c = backend_step(
                a,
                f,
                BackendPhase::AwaitConfirmation,
                BackendEventView::Confirmed(safe),
            );
            let b = backend_step(a, f, BackendPhase::AwaitBuildNotice, BackendEventView::Proceed);
            &&& t.agent == a && t.factsheet == f
            &&& t.phase == BackendPhase::AwaitConfirmation
            &&& t.action == BackendActionView::ConfirmSafeCode
            &&& c.factsheet == f
            &&& c.agent.bug_count == a.bug_count && c.agent.bug_errors == a.bug_errors
            &&& c.phase == BackendPhase::AwaitBuildNotice
            &&& c.action == BackendActionView::Print(
                PrintCommand::UnitTest,
                a.attributes.position,
                "Buildind Code Unit Testing : building project..."@,
            )
            &&& b.agent == a && b.factsheet == f
            &&& b.phase == BackendPhase::AwaitBuild
            &&& b.action == BackendActionView::BuildProject
        }),
{
    reveal(backend_step);
}

/// A passed build changes nothing but the bug count, which becomes zero:
/// the fact sheet (its code included) and the agent's state and recorded
/// bugs stay, and the pass is announced.
pub proof fn lemma_passed_build_keeps_the_fact_sheet(
    a: BackendView,
    f: FactSheetView,
    output: Seq<char>,
)
    ensures
        ({
            let s = backend_step(a, f, BackendPhase::AwaitBuild, BackendEventView::Built(true, output));
            &&& s.factsheet == f
            &&& s.agent.attributes == a.attributes
            &&& s.agent.bug_errors == a.bug_errors
            &&& s.agent.bug_count == 0
            &&& s.phase == BackendPhase::AwaitBuildSuccessNotice
            &&& s.action == BackendActionView::Print(
                PrintCommand::UnitTest,
                a.attributes.position,
                "Backend Code Unit Testing: Test server build successful..."@,
            )
        }),
{
    reveal(backend_step);
}

/// A failed build records its errors and one more bug, and keeps the fact
/// sheet; below the limit the agent goes back to work and asks for a fix of
/// the fact sheet's code with those errors, at the limit it reports the
/// issue.
pub proof fn lemma_failed_build_keeps_the_fact_sheet(
    a: BackendView,
    f: FactSheetView,
    errors: Seq<char>,
)
    requires
        a.bug_count <= 2,
    ensures
        ({
            let s = backend_step(a, f, BackendPhase::AwaitBuild, BackendEventView::Built(false, errors));
            &&& s.factsheet == f
            &&& s.agent.bug_count == a.bug_count + 1
            &&& s.agent.bug_errors == Some(errors)
            &&& s.agent.attributes.position == a.attributes.position
            &&& a.bug_count < 2 ==> s.agent.attributes.state == AgentState::Working && s.phase
                == BackendPhase::AwaitCode(CodeRequest::Fix) && s.action
                == BackendActionView::RequestCode(
                expected_fix_request(f.backend_code, Some(errors), a.attributes.position),
            )
            &&& a.bug_count == 2 ==> s.agent.attributes.state == a.attributes.state && s.phase
                == BackendPhase::AwaitTooManyBugsNotice && s.action == BackendActionView::Print(
                PrintCommand::Issue,
                a.attributes.position,
                "Backend Code Unit Testing: Too many bugs find in code..."@,
            )
        }),
{
    reveal(backend_step);
    reveal(fix_context);
}

/// Once the work is being given up, every step aborts with "Error: Too many
/// bugs" and changes nothing.
pub proof fn lemma_giving_up_aborts(a: BackendView, f: FactSheetView, e: BackendEventView)
    ensures
        ({
            let s = backend_step(a, f, BackendPhase::AwaitTooManyBugsNotice, e);
            let t = backend_step(a, f, BackendPhase::Aborted, e);
            &&& s.agent == a && s.factsheet == f && s.phase == BackendPhase::Aborted
            &&& s.action == BackendActionView::Abort("Error: Too many bugs"@)
            &&& t.agent == a && t.factsheet == f && t.phase == BackendPhase::Aborted
            &&& t.action == BackendActionView::Abort("Error: Too many bugs"@)
        }),
{
    reveal(backend_step);
}

/// After a passed build the agent reads the server's main file and asks for
/// its routes with the `{:?}` text of the whole file as context.
pub proof fn lemma_routes_are_asked_of_the_whole_main_file(
    a: BackendView,
    f: FactSheetView,
    main: Seq<char>,
)
    ensures
        ({
            let r = backend_step(
                a,
                f,
                BackendPhase::AwaitBuildSuccessNotice,
                BackendEventView::Proceed,
            );
            let s = backend_step(a, f, BackendPhase::AwaitExecMain, BackendEventView::ExecMain(main));
            &&& r.agent == a && r.factsheet == f
            &&& r.phase == BackendPhase::AwaitExecMain
            &&& r.action == BackendActionView::ReadExecMain
            &&& s.agent == a && s.factsheet == f
            &&& s.phase == BackendPhase::AwaitEndpoints
            &&& s.action == BackendActionView::RequestEndpoints(
                AiRequestView {
                    msg_context: "CODE_INPUT: "@ + debug_text(main),
                    agent_position: a.attributes.position,
                    agent_operation: "print_rest_api_endpoints"@,
                    function: AiFunction::PrintRestApiEndpoints,
                },
            )
        }),
{
    reveal(backend_step);
}

/// The routes recorded are exactly the listed routes whose method is "get"
/// and that are not dynamic, in their order; the agent announces the
/// server's start.
pub proof fn lemma_recorded_routes_are_plain_gets(
    a: BackendView,
    f: FactSheetView,
    routes: Seq<RouteObject>,
)
    ensures
        ({
            let s = backend_step(a, f, BackendPhase::AwaitEndpoints, BackendEventView::Endpoints(routes));
            &&& s.agent == a
            &&& s.factsheet == (FactSheetView {
                api_endpoint_schema: Some(
                    routes.filter(
                        |r: RouteObject| r.method@ == "get"@ && r.is_route_dynamic@ == "false"@,
                    ),
                ),
                ..f
            })
            &&& s.phase == BackendPhase::AwaitServerNotice
            &&& s.action == BackendActionView::Print(
                PrintCommand::UnitTest,
                a.attributes.position,
                "Build Code Unit Testing: Starting Web Server...."@,
            )
        }),
{
    reveal(backend_step);
    assert((|r: RouteObject| r.method@ == "get"@ && r.is_route_dynamic@ == "false"@) =~= (|
        r: RouteObject,
    | crate::models::agents::agent_trait::is_static_get(r)));
}

/// After the routes, the agent runs the server, announces the tests, pauses
/// five seconds, and is then finished and stops; none of this changes the
/// fact sheet.
pub proof fn lemma_server_run_ends_the_work(a: BackendView, f: FactSheetView)
    ensures
        ({
            let p = BackendEventView::Proceed;
            let s1 = backend_step(a, f, BackendPhase::AwaitServerNotice, p);
            let s2 = backend_step(a, f, BackendPhase::AwaitRun, p);
            let s3 = backend_step(a, f, BackendPhase::AwaitLaunchNotice, p);
            let s4 = backend_step(a, f, BackendPhase::AwaitSleep, p);
            &&& s1.agent == a && s1.factsheet == f && s1.phase == BackendPhase::AwaitRun
            &&& s1.action == BackendActionView::RunProject
            &&& s2.agent == a && s2.factsheet == f && s2.phase == BackendPhase::AwaitLaunchNotice
            &&& s2.action == BackendActionView::Print(
                PrintCommand::UnitTest,
                a.attributes.position,
                "Build Code Unit Testing: Launching tests on web server in 5 seconds...."@,
            )
            &&& s3.agent == a && s3.factsheet == f && s3.phase == BackendPhase::AwaitSleep
            &&& s3.action == BackendActionView::Sleep(5)
            &&& s4.factsheet == f && s4.agent.attributes.state == AgentState::Finished
            &&& s4.agent.bug_count == a.bug_count && s4.agent.bug_errors == a.bug_errors
            &&& s4.phase == BackendPhase::LoopHead && s4.action == BackendActionView::Finish
        }),
{
    reveal(backend_step);
}

/// Each phase takes exactly the report of the work it waits for: the
/// template, the written code, the user's answer, the build's outcome, the
/// main file or the listed routes; every other phase takes a plain
/// "proceed". The bug count may reach three only while giving up.
pub proof fn lemma_phases_take_their_reports(phase: BackendPhase, e: BackendEventView, a: BackendView)
    ensures
        phase is AwaitTemplate ==> (accepts(phase, e) <==> e is CodeTemplate),
        phase is AwaitCode ==> (accepts(phase, e) <==> e is Code),
        phase == BackendPhase::AwaitConfirmation ==> (accepts(phase, e) <==> e is Confirmed),
        phase == BackendPhase::AwaitBuild ==> (accepts(phase, e) <==> e is Built),
        phase == BackendPhase::AwaitExecMain ==> (accepts(phase, e) <==> e is ExecMain),
        phase == BackendPhase::AwaitEndpoints ==> (accepts(phase, e) <==> e is Endpoints),
        !(phase is AwaitTemplate || phase is AwaitCode || phase == BackendPhase::AwaitConfirmation
            || phase == BackendPhase::AwaitBuild || phase == BackendPhase::AwaitExecMain || phase
            == BackendPhase::AwaitEndpoints) ==> (accepts(phase, e) <==> e is Proceed),
        (phase == BackendPhase::AwaitTooManyBugsNotice || phase == BackendPhase::Aborted) ==> (
        bug_count_bounded(a, phase) <==> a.bug_count <= 3),
        !(phase == BackendPhase::AwaitTooManyBugsNotice || phase == BackendPhase::Aborted) ==> (
        bug_count_bounded(a, phase) <==> a.bug_count <= 2),
{
}

} // verus!
