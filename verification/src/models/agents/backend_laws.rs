use vstd::prelude::*;

use crate::base::command_line::PrintCommand;
use crate::models::agent_basic::basic_agent::AgentState;
use crate::models::agents::agent_backend::{
    accepts, backend_step, bug_count_bounded, code_request, fix_context, BackendActionView,
    BackendEventView, BackendPhase, BackendStep, BackendView, CodeRequest,
};
use crate::models::agents::agent_trait::{is_static_get, FactSheetView, RouteObject};

verus! {

/// The last step of the backend developer's work on the reports `events`,
/// taken one after the other from the agent `a`, the fact sheet `f` and
/// `phase`.
pub open spec fn run(a: BackendView, f: FactSheetView, phase: BackendPhase, events: Seq<
    BackendEventView,
>) -> BackendStep
    recommends
        events.len() > 0,
    decreases events.len(),
{
    let first = backend_step(a, f, phase, events[0]);
    if events.len() <= 1 {
        first
    } else {
        run(first.agent, first.factsheet, first.phase, events.drop_first())
    }
}

/// Running on `xs` and then on `ys` is running on `xs + ys`.
pub proof fn lemma_run_append(
    a: BackendView,
    f: FactSheetView,
    phase: BackendPhase,
    xs: Seq<BackendEventView>,
    ys: Seq<BackendEventView>,
)
    requires
        xs.len() > 0,
        ys.len() > 0,
    ensures
        ({
            let mid = run(a, f, phase, xs);
            run(a, f, phase, xs + ys) == run(mid.agent, mid.factsheet, mid.phase, ys)
        }),
    decreases xs.len(),
{
    let first = backend_step(a, f, phase, xs[0]);
    if xs.len() == 1 {
        assert((xs + ys).drop_first() =~= ys);
    } else {
        assert((xs + ys).drop_first() =~= xs.drop_first() + ys);
        lemma_run_append(first.agent, first.factsheet, first.phase, xs.drop_first(), ys);
    }
}

/// Every step of the backend developer's work on the reports `events`, in
/// order, from the agent `a`, the fact sheet `f` and `phase`.
pub open spec fn trace(a: BackendView, f: FactSheetView, phase: BackendPhase, events: Seq<
    BackendEventView,
>) -> Seq<BackendStep>
    decreases events.len(),
{
    if events.len() == 0 {
        Seq::empty()
    } else {
        let first = backend_step(a, f, phase, events[0]);
        seq![first] + trace(first.agent, first.factsheet, first.phase, events.drop_first())
    }
}

/// Each step of a trace is the step from the one before it, and the last
/// step is what `run` gives.
pub proof fn lemma_trace_steps(
    a: BackendView,
    f: FactSheetView,
    phase: BackendPhase,
    events: Seq<BackendEventView>,
)
    ensures
        trace(a, f, phase, events).len() == events.len(),
        events.len() > 0 ==> trace(a, f, phase, events)[0] == backend_step(a, f, phase, events[0]),
        forall|k: int|
            #![trigger trace(a, f, phase, events)[k]]
            1 <= k < events.len() ==> trace(a, f, phase, events)[k] == backend_step(
                trace(a, f, phase, events)[k - 1].agent,
                trace(a, f, phase, events)[k - 1].factsheet,
                trace(a, f, phase, events)[k - 1].phase,
                events[k],
            ),
        events.len() > 0 ==> run(a, f, phase, events) == trace(a, f, phase, events).last(),
    decreases events.len(),
{
    if events.len() > 0 {
        let first = backend_step(a, f, phase, events[0]);
        let rest = events.drop_first();
        lemma_trace_steps(first.agent, first.factsheet, first.phase, rest);
        let tail = trace(first.agent, first.factsheet, first.phase, rest);
        let whole = trace(a, f, phase, events);
        assert(whole == seq![first] + tail);
        assert forall|k: int| 1 <= k < events.len() implies #[trigger] whole[k] == backend_step(
            whole[k - 1].agent,
            whole[k - 1].factsheet,
            whole[k - 1].phase,
            events[k],
        ) by {
            assert(whole[k] == tail[k - 1]);
            assert(rest[k - 1] == events[k]);
            if k >= 2 {
                assert(whole[k - 1] == tail[k - 2]);
            }
        }
        if events.len() > 1 {
            assert(whole.last() == tail.last());
        }
    }
}

/// Once the backend developer is finished, its work loop stops: it asks for
/// nothing more and changes nothing.
pub proof fn lemma_finished_agent_stops(a: BackendView, f: FactSheetView)
    requires
        a.attributes.state == AgentState::Finished,
    ensures
        backend_step(a, f, BackendPhase::LoopHead, BackendEventView::Proceed) == (BackendStep {
            agent: a,
            factsheet: f,
            phase: BackendPhase::LoopHead,
            action: BackendActionView::Finish,
        }),
{
    reveal(backend_step);
}

/// Every step keeps the bug count at two or less, except while the work is
/// being given up, when it is three.
pub proof fn lemma_step_keeps_bug_count_bounded(
    a: BackendView,
    f: FactSheetView,
    phase: BackendPhase,
    e: BackendEventView,
)
    requires
        accepts(phase, e),
        bug_count_bounded(a, phase),
    ensures
        bug_count_bounded(
            backend_step(a, f, phase, e).agent,
            backend_step(a, f, phase, e).phase,
        ),
{
    reveal(backend_step);
}

/// No step changes the agent's objective, position or memory, nor the
/// project's description, scope or external URLs.
pub proof fn lemma_step_keeps_identity_and_project(
    a: BackendView,
    f: FactSheetView,
    phase: BackendPhase,
    e: BackendEventView,
)
    ensures
        ({
            let s = backend_step(a, f, phase, e);
            &&& s.agent.attributes.objective == a.attributes.objective
            &&& s.agent.attributes.position == a.attributes.position
            &&& s.agent.attributes.memory == a.attributes.memory
            &&& s.factsheet.project_description == f.project_description
            &&& s.factsheet.project_scope == f.project_scope
            &&& s.factsheet.external_urls == f.external_urls
        }),
{
    reveal(backend_step);
}

/// The code that the language model writes is what the fact sheet then
/// holds and what is saved.
pub proof fn lemma_written_code_is_kept_and_saved(
    a: BackendView,
    f: FactSheetView,
    kind: CodeRequest,
    code: Seq<char>,
)
    ensures
        ({
            let s = backend_step(a, f, BackendPhase::AwaitCode(kind), BackendEventView::Code(code));
            &&& s.factsheet.backend_code == Some(code)
            &&& s.action == BackendActionView::SaveBackendCode(code)
            &&& s.phase == BackendPhase::AwaitSave(kind)
            &&& s.agent == a
            &&& s.factsheet == (FactSheetView { backend_code: Some(code), ..f })
        }),
{
    reveal(backend_step);
}

/// A passed build clears the bug count, and the work goes on to the
/// server's routes.
pub proof fn lemma_passed_build_clears_bugs(
    a: BackendView,
    f: FactSheetView,
    stderr: Seq<char>,
)
    ensures
        ({
            let s = backend_step(
                a,
                f,
                BackendPhase::AwaitBuild,
                BackendEventView::Built(true, stderr),
            );
            let t = backend_step(s.agent, s.factsheet, s.phase, BackendEventView::Proceed);
            &&& s.agent.bug_count == 0
            &&& s.agent.bug_errors == a.bug_errors
            &&& t.action == BackendActionView::ReadExecMain
        }),
{
    reveal(backend_step);
}

/// A failed build below the limit records its errors, counts one more bug,
/// and sends the agent back to work on a fix of the code with those errors.
pub proof fn lemma_failed_build_asks_for_fix(
    a: BackendView,
    f: FactSheetView,
    stderr: Seq<char>,
)
    requires
        a.bug_count <= 1,
    ensures
        ({
            let s = backend_step(
                a,
                f,
                BackendPhase::AwaitBuild,
                BackendEventView::Built(false, stderr),
            );
            &&& s.agent.bug_count == a.bug_count + 1
            &&& s.agent.bug_errors == Some(stderr)
            &&& s.agent.attributes.state == AgentState::Working
            &&& s.phase == BackendPhase::AwaitCode(CodeRequest::Fix)
            &&& s.action == BackendActionView::RequestCode(
                code_request(
                    CodeRequest::Fix,
                    fix_context(f.backend_code, Some(stderr)),
                    a.attributes.position,
                ),
            )
        }),
{
    reveal(backend_step);
}

/// The routes that the fact sheet records are those that the language model
/// listed and that can be tested by a plain request, in their order.
pub proof fn lemma_recorded_routes_are_static_gets(
    a: BackendView,
    f: FactSheetView,
    routes: Seq<RouteObject>,
)
    ensures
        ({
            let s = backend_step(
                a,
                f,
                BackendPhase::AwaitEndpoints,
                BackendEventView::Endpoints(routes),
            );
            &&& s.factsheet.api_endpoint_schema is Some
            &&& forall|i: int|
                0 <= i < s.factsheet.api_endpoint_schema->0.len() ==> is_static_get(
                    #[trigger] s.factsheet.api_endpoint_schema->0[i],
                )
            &&& forall|r: RouteObject|
                routes.contains(r) && is_static_get(r) ==> s.factsheet.api_endpoint_schema->0.contains(
                    r,
                )
        }),
{
    reveal(backend_step);
    broadcast use vstd::seq_lib::group_filter_ensures;

    let pred = |r: RouteObject| is_static_get(r);
    let kept = routes.filter(pred);
    assert forall|i: int| 0 <= i < kept.len() implies is_static_get(#[trigger] kept[i]) by {
        assert(pred(kept[i]));
    }
    assert forall|r: RouteObject| routes.contains(r) && is_static_get(r) implies kept.contains(r) by {
        let i = choose|i: int| 0 <= i < routes.len() && routes[i] == r;
        assert(pred(routes[i]));
    }
}

/// The user's answer on whether the code is safe to run does not stop the
/// build that follows it: a "no" only marks the agent as finished.
pub proof fn lemma_refusal_still_builds(a: BackendView, f: FactSheetView, safe: bool)
    ensures
        ({
            let s = backend_step(
                a,
                f,
                BackendPhase::AwaitConfirmation,
                BackendEventView::Confirmed(safe),
            );
            let t = backend_step(s.agent, s.factsheet, s.phase, BackendEventView::Proceed);
            &&& !safe ==> s.agent.attributes.state == AgentState::Finished
            &&& safe ==> s.agent == a
            &&& t.action == BackendActionView::BuildProject
        }),
{
    reveal(backend_step);
}

/// The reports from a failed build to the next build: the fixed code is
/// written and saved, testing is announced, the user answers, and the build
/// is announced.
pub open spec fn fix_cycle(stderr: Seq<char>, code: Seq<char>, safe: bool) -> Seq<BackendEventView> {
    seq![
        BackendEventView::Built(false, stderr),
        BackendEventView::Code(code),
        BackendEventView::Proceed,
        BackendEventView::Proceed,
        BackendEventView::Confirmed(safe),
        BackendEventView::Proceed,
    ]
}

/// After a failed build below the limit, the agent fixes the code and builds
/// again, with one more bug counted and the fixed code in the fact sheet.
pub proof fn lemma_fix_cycle(
    a: BackendView,
    f: FactSheetView,
    stderr: Seq<char>,
    code: Seq<char>,
    safe: bool,
)
    requires
        a.bug_count <= 1,
    ensures
        ({
            let s = run(a, f, BackendPhase::AwaitBuild, fix_cycle(stderr, code, safe));
            &&& s.phase == BackendPhase::AwaitBuild
            &&& s.action == BackendActionView::BuildProject
            &&& s.agent.bug_count == a.bug_count + 1
            &&& s.agent.bug_errors == Some(stderr)
            &&& s.factsheet.backend_code == Some(code)
            &&& s.agent.attributes.position == a.attributes.position
        }),
{
    reveal(backend_step);
    let events = fix_cycle(stderr, code, safe);
    let s1 = backend_step(a, f, BackendPhase::AwaitBuild, events[0]);
    let s2 = backend_step(s1.agent, s1.factsheet, s1.phase, events[1]);
    let s3 = backend_step(s2.agent, s2.factsheet, s2.phase, events[2]);
    let s4 = backend_step(s3.agent, s3.factsheet, s3.phase, events[3]);
    let s5 = backend_step(s4.agent, s4.factsheet, s4.phase, events[4]);
    let s6 = backend_step(s5.agent, s5.factsheet, s5.phase, events[5]);
    assert(s1.phase == BackendPhase::AwaitCode(CodeRequest::Fix));
    assert(s2.phase == BackendPhase::AwaitSave(CodeRequest::Fix));
    assert(s3.phase == BackendPhase::AwaitTestingNotice);
    assert(s4.phase == BackendPhase::AwaitConfirmation);
    assert(s5.phase == BackendPhase::AwaitBuildNotice);
    assert(s6.phase == BackendPhase::AwaitBuild);
    let e1 = events.drop_first();
    let e2 = e1.drop_first();
    let e3 = e2.drop_first();
    let e4 = e3.drop_first();
    let e5 = e4.drop_first();
    assert(e1[0] == events[1]);
    assert(e2[0] == events[2]);
    assert(e3[0] == events[3]);
    assert(e4[0] == events[4]);
    assert(e5[0] == events[5]);
    assert(e5.len() == 1);
    assert(run(s5.agent, s5.factsheet, s5.phase, e5) == s6);
    assert(run(s4.agent, s4.factsheet, s4.phase, e4) == s6);
    assert(run(s3.agent, s3.factsheet, s3.phase, e3) == s6);
    assert(run(s2.agent, s2.factsheet, s2.phase, e2) == s6);
    assert(run(s1.agent, s1.factsheet, s1.phase, e1) == s6);
}

/// Three failed builds with no passed build between them give the work up:
/// the third failure is reported as an issue, and the work then aborts with
/// "Error: Too many bugs".
pub proof fn lemma_third_failed_build_gives_up(
    a: BackendView,
    f: FactSheetView,
    first_errors: Seq<char>,
    first_fix: Seq<char>,
    first_answer: bool,
    second_errors: Seq<char>,
    second_fix: Seq<char>,
    second_answer: bool,
    third_errors: Seq<char>,
)
    requires
        a.bug_count == 0,
    ensures
        ({
            let events = fix_cycle(first_errors, first_fix, first_answer) + fix_cycle(
                second_errors,
                second_fix,
                second_answer,
            ) + seq![BackendEventView::Built(false, third_errors)];
            let reported = run(a, f, BackendPhase::AwaitBuild, events);
            let given_up = run(
                a,
                f,
                BackendPhase::AwaitBuild,
                events.push(BackendEventView::Proceed),
            );
            &&& reported.action == BackendActionView::Print(
                PrintCommand::Issue,
                a.attributes.position,
                "Backend Code Unit Testing: Too many bugs find in code..."@,
            )
            &&& reported.agent.bug_count == 3
            &&& given_up.phase == BackendPhase::Aborted
            &&& given_up.action == BackendActionView::Abort("Error: Too many bugs"@)
        }),
{
    reveal(backend_step);
    let c1 = fix_cycle(first_errors, first_fix, first_answer);
    let c2 = fix_cycle(second_errors, second_fix, second_answer);
    let last = seq![BackendEventView::Built(false, third_errors)];
    let proceed = seq![BackendEventView::Proceed];
    lemma_fix_cycle(a, f, first_errors, first_fix, first_answer);
    let m1 = run(a, f, BackendPhase::AwaitBuild, c1);
    lemma_fix_cycle(m1.agent, m1.factsheet, second_errors, second_fix, second_answer);
    let m2 = run(m1.agent, m1.factsheet, m1.phase, c2);
    lemma_run_append(a, f, BackendPhase::AwaitBuild, c1, c2);
    lemma_run_append(a, f, BackendPhase::AwaitBuild, c1 + c2, last);
    let m3 = run(m2.agent, m2.factsheet, m2.phase, last);
    assert(m3 == backend_step(m2.agent, m2.factsheet, m2.phase, last[0]));
    lemma_run_append(a, f, BackendPhase::AwaitBuild, c1 + c2 + last, proceed);
    assert((c1 + c2 + last).push(BackendEventView::Proceed) =~= c1 + c2 + last + proceed);
    assert(run(m3.agent, m3.factsheet, m3.phase, proceed) == backend_step(
        m3.agent,
        m3.factsheet,
        m3.phase,
        proceed[0],
    ));
}

/// The reports of a backend developer's work whose first build passes: the
/// template and the first code, the template and the improved code, the
/// user's consent, the passed build, the main file, the listed routes, and
/// the notices, the run and the pause.
pub open spec fn smooth_run(
    template: Seq<char>,
    first_code: Seq<char>,
    improved_code: Seq<char>,
    build_output: Seq<char>,
    main: Seq<char>,
    routes: Seq<RouteObject>,
) -> Seq<BackendEventView> {
    seq![
        BackendEventView::Proceed,
        BackendEventView::CodeTemplate(template),
        BackendEventView::Code(first_code),
        BackendEventView::Proceed,
        BackendEventView::CodeTemplate(template),
        BackendEventView::Code(improved_code),
        BackendEventView::Proceed,
        BackendEventView::Proceed,
        BackendEventView::Confirmed(true),
        BackendEventView::Proceed,
        BackendEventView::Built(true, build_output),
        BackendEventView::Proceed,
        BackendEventView::ExecMain(main),
        BackendEventView::Endpoints(routes),
        BackendEventView::Proceed,
        BackendEventView::Proceed,
        BackendEventView::Proceed,
        BackendEventView::Proceed,
    ]
}

/// A backend developer that has not started, and whose first build passes,
/// finishes its work: the fact sheet then holds the improved code and the
/// routes that can be tested by a plain request, no bug is counted, and the
/// work loop asks for nothing more.
pub proof fn lemma_smooth_run_finishes(
    a: BackendView,
    f: FactSheetView,
    template: Seq<char>,
    first_code: Seq<char>,
    improved_code: Seq<char>,
    build_output: Seq<char>,
    main: Seq<char>,
    routes: Seq<RouteObject>,
)
    requires
        a.attributes.state == AgentState::Discovery,
        a.bug_count == 0,
    ensures
        ({
            let s = run(
                a,
                f,
                BackendPhase::LoopHead,
                smooth_run(template, first_code, improved_code, build_output, main, routes),
            );
            &&& s.action == BackendActionView::Finish
            &&& s.phase == BackendPhase::LoopHead
            &&& s.agent.attributes.state == AgentState::Finished
            &&& s.agent.bug_count == 0
            &&& s.factsheet.backend_code == Some(improved_code)
            &&& s.factsheet.api_endpoint_schema == Some(
                routes.filter(|r: RouteObject| is_static_get(r)),
            )
        }),
{
    let write = seq![
        BackendEventView::Proceed,
        BackendEventView::CodeTemplate(template),
        BackendEventView::Code(first_code),
        BackendEventView::Proceed,
        BackendEventView::CodeTemplate(template),
        BackendEventView::Code(improved_code),
        BackendEventView::Proceed,
    ];
    let build = seq![
        BackendEventView::Proceed,
        BackendEventView::Confirmed(true),
        BackendEventView::Proceed,
        BackendEventView::Built(true, build_output),
        BackendEventView::Proceed,
    ];
    let serve = seq![
        BackendEventView::ExecMain(main),
        BackendEventView::Endpoints(routes),
        BackendEventView::Proceed,
        BackendEventView::Proceed,
        BackendEventView::Proceed,
        BackendEventView::Proceed,
    ];
    assert(smooth_run(template, first_code, improved_code, build_output, main, routes) =~= write
        + build + serve);
    let w = run(a, f, BackendPhase::LoopHead, write);
    assert(w.phase == BackendPhase::AwaitTestingNotice && w.agent.bug_count == 0
        && w.agent.attributes.state == AgentState::UnitTesting && w.factsheet.backend_code == Some(
        improved_code,
    )) by {
        reveal(backend_step);
        reveal_with_fuel(run, 8);
    }
    let b = run(w.agent, w.factsheet, w.phase, build);
    assert(b.phase == BackendPhase::AwaitExecMain && b.agent.bug_count == 0
        && b.agent.attributes.state == AgentState::UnitTesting && b.factsheet.backend_code == Some(
        improved_code,
    )) by {
        reveal(backend_step);
        reveal_with_fuel(run, 6);
    }
    let c = run(b.agent, b.factsheet, b.phase, serve);
    assert(c.phase == BackendPhase::LoopHead && c.action == BackendActionView::Finish
        && c.agent.bug_count == 0 && c.agent.attributes.state == AgentState::Finished
        && c.factsheet.backend_code == Some(improved_code) && c.factsheet.api_endpoint_schema
        == Some(routes.filter(|r: RouteObject| is_static_get(r)))) by {
        reveal(backend_step);
        reveal_with_fuel(run, 7);
    }
    lemma_run_append(a, f, BackendPhase::LoopHead, write, build);
    lemma_run_append(a, f, BackendPhase::LoopHead, write + build, serve);
}

/// The code that the most recent save among `steps[0..i]` wrote, or `saved`
/// where none of them saves.
pub open spec fn saved_code(saved: Option<Seq<char>>, steps: Seq<BackendStep>, i: int) -> Option<
    Seq<char>,
>
    decreases i,
{
    if i <= 0 {
        saved
    } else {
        match steps[i - 1].action {
            BackendActionView::SaveBackendCode(code) => Some(code),
            _ => saved_code(saved, steps, i - 1),
        }
    }
}

/// What holds between the saved code `saved` and the work's state: while the
/// code is being tested, and from its save to its build, the saved code is
/// the fact sheet's code.
pub open spec fn code_saved(
    a: BackendView,
    f: FactSheetView,
    phase: BackendPhase,
    saved: Option<Seq<char>>,
) -> bool {
    let current = f.backend_code is Some && saved == f.backend_code;
    &&& a.attributes.state == AgentState::UnitTesting ==> current
    &&& match phase {
        BackendPhase::AwaitSave(_)
        | BackendPhase::AwaitTestingNotice
        | BackendPhase::AwaitConfirmation
        | BackendPhase::AwaitBuildNotice
        | BackendPhase::AwaitBuild => current,
        _ => true,
    }
}

proof fn lemma_step_keeps_code_saved(
    a: BackendView,
    f: FactSheetView,
    phase: BackendPhase,
    saved: Option<Seq<char>>,
    e: BackendEventView,
)
    requires
        code_saved(a, f, phase, saved),
    ensures
        ({
            let s = backend_step(a, f, phase, e);
            let now_saved = match s.action {
                BackendActionView::SaveBackendCode(code) => Some(code),
                _ => saved,
            };
            &&& code_saved(s.agent, s.factsheet, s.phase, now_saved)
            &&& s.action == BackendActionView::BuildProject ==> saved is Some && saved
                == s.factsheet.backend_code
        }),
{
    reveal(backend_step);
}

proof fn lemma_saved_code_has_a_save(steps: Seq<BackendStep>, i: int, code: Seq<char>)
    requires
        0 <= i <= steps.len(),
        saved_code(None, steps, i) == Some(code),
    ensures
        exists|j: int|
            0 <= j < i && steps[j].action == BackendActionView::SaveBackendCode(code) && forall|
                k: int,
            |
                j < k < i ==> !(#[trigger] steps[k].action is SaveBackendCode),
    decreases i,
{
    if i > 0 {
        match steps[i - 1].action {
            BackendActionView::SaveBackendCode(c) => {
                assert(steps[i - 1].action == BackendActionView::SaveBackendCode(code));
            },
            _ => {
                lemma_saved_code_has_a_save(steps, i - 1, code);
                let j = choose|j: int|
                    0 <= j < i - 1 && steps[j].action == BackendActionView::SaveBackendCode(code)
                        && forall|k: int|
                        j < k < i - 1 ==> !(#[trigger] steps[k].action is SaveBackendCode);
                assert forall|k: int| j < k < i implies !(#[trigger] steps[k].action is SaveBackendCode) by {
                    if k == i - 1 {
                        assert(!(steps[i - 1].action is SaveBackendCode));
                    }
                }
            },
        }
    }
}

/// A build is only ever asked for right after the fact sheet's current code
/// was saved: in a run that starts at the head of the work loop, with the
/// agent in discovery or at work, every `BuildProject` is preceded by a
/// `SaveBackendCode` of the code that the fact sheet holds at the build, and
/// no other save comes between them.
pub proof fn lemma_build_follows_save_of_current_code(
    a: BackendView,
    f: FactSheetView,
    events: Seq<BackendEventView>,
)
    requires
        a.attributes.state == AgentState::Discovery || a.attributes.state == AgentState::Working,
    ensures
        ({
            let steps = trace(a, f, BackendPhase::LoopHead, events);
            forall|i: int|
                0 <= i < steps.len() && #[trigger] steps[i].action == BackendActionView::BuildProject
                    ==> exists|j: int, code: Seq<char>|
                    0 <= j < i && steps[j].action == BackendActionView::SaveBackendCode(code)
                        && steps[i].factsheet.backend_code == Some(code) && forall|k: int|
                        j < k < i ==> !(#[trigger] steps[k].action is SaveBackendCode)
        }),
{
    let steps = trace(a, f, BackendPhase::LoopHead, events);
    assert forall|i: int|
        0 <= i < steps.len() && #[trigger] steps[i].action
            == BackendActionView::BuildProject implies exists|j: int, code: Seq<char>|
        0 <= j < i && steps[j].action == BackendActionView::SaveBackendCode(code)
            && steps[i].factsheet.backend_code == Some(code) && forall|k: int|
            j < k < i ==> !(#[trigger] steps[k].action is SaveBackendCode) by {
        lemma_build_preceded_at(a, f, events, i);
    }
}

proof fn lemma_build_preceded_at(a: BackendView, f: FactSheetView, events: Seq<BackendEventView>, i: int)
    requires
        a.attributes.state == AgentState::Discovery || a.attributes.state == AgentState::Working,
        0 <= i < trace(a, f, BackendPhase::LoopHead, events).len(),
        trace(a, f, BackendPhase::LoopHead, events)[i].action == BackendActionView::BuildProject,
    ensures
        ({
            let steps = trace(a, f, BackendPhase::LoopHead, events);
            exists|j: int, code: Seq<char>|
                0 <= j < i && steps[j].action == BackendActionView::SaveBackendCode(code)
                    && steps[i].factsheet.backend_code == Some(code) && forall|k: int|
                    j < k < i ==> !(#[trigger] steps[k].action is SaveBackendCode)
        }),
{
    let steps = trace(a, f, BackendPhase::LoopHead, events);
    lemma_trace_len(a, f, BackendPhase::LoopHead, events);
    lemma_code_saved_along(a, f, events, i);
    let code = saved_code(None, steps, i)->0;
    lemma_saved_code_has_a_save(steps, i, code);
    let j = choose|j: int|
        0 <= j < i && steps[j].action == BackendActionView::SaveBackendCode(code) && forall|k: int|
            j < k < i ==> !(#[trigger] steps[k].action is SaveBackendCode);
    assert(0 <= j < i && steps[j].action == BackendActionView::SaveBackendCode(code)
        && steps[i].factsheet.backend_code == Some(code));
}

proof fn lemma_trace_len(
    a: BackendView,
    f: FactSheetView,
    phase: BackendPhase,
    events: Seq<BackendEventView>,
)
    ensures
        trace(a, f, phase, events).len() == events.len(),
    decreases events.len(),
{
    if events.len() > 0 {
        let first = backend_step(a, f, phase, events[0]);
        lemma_trace_len(first.agent, first.factsheet, first.phase, events.drop_first());
    }
}

proof fn lemma_code_saved_along(
    a: BackendView,
    f: FactSheetView,
    events: Seq<BackendEventView>,
    i: int,
)
    requires
        a.attributes.state == AgentState::Discovery || a.attributes.state == AgentState::Working,
        0 <= i < events.len(),
    ensures
        ({
            let steps = trace(a, f, BackendPhase::LoopHead, events);
            &&& code_saved(
                steps[i].agent,
                steps[i].factsheet,
                steps[i].phase,
                saved_code(None, steps, i + 1),
            )
            &&& steps[i].action == BackendActionView::BuildProject ==> saved_code(None, steps, i)
                is Some && saved_code(None, steps, i) == steps[i].factsheet.backend_code
        }),
    decreases i,
{
    let steps = trace(a, f, BackendPhase::LoopHead, events);
    lemma_trace_steps(a, f, BackendPhase::LoopHead, events);
    if i == 0 {
        assert(code_saved(a, f, BackendPhase::LoopHead, None));
        lemma_step_keeps_code_saved(a, f, BackendPhase::LoopHead, None, events[0]);
    } else {
        lemma_code_saved_along(a, f, events, i - 1);
        let prev = steps[i - 1];
        assert(steps[i] == backend_step(prev.agent, prev.factsheet, prev.phase, events[i]));
        lemma_step_keeps_code_saved(
            prev.agent,
            prev.factsheet,
            prev.phase,
            saved_code(None, steps, i),
            events[i],
        );
    }
}

} // verus!
