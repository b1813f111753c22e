use vstd::prelude::*;

use crate::models::llm::Message;

verus! {

/// The AI functions that the agents hand to the language model: each one
/// describes, in its own text, what the model is to print.
#[derive(PartialEq, Eq, Structural, Debug, Clone, Copy)]
pub enum AiFunction {
    PrintUserInputToGoal,
    PrintProjectScope,
    PrintBackendWebserverCode,
    PrintImprovedWebserverCode,
    PrintFixedCode,
    PrintRestApiEndpoints,
}

/// A request to the language model: the context that goes to the AI
/// function, the position of the agent that asks, the name under which the
/// operation is announced, and the AI function itself.
#[derive(Debug)]
pub struct AiRequest {
    pub msg_context: String,
    pub agent_position: String,
    pub agent_operation: String,
    pub function: AiFunction,
}

/// A request to the language model, as text.
pub struct AiRequestView {
    pub msg_context: Seq<char>,
    pub agent_position: Seq<char>,
    pub agent_operation: Seq<char>,
    pub function: AiFunction,
}

impl View for AiRequest {
    type V = AiRequestView;

    open spec fn view(&self) -> AiRequestView {
        AiRequestView {
            msg_context: self.msg_context@,
            agent_position: self.agent_position@,
            agent_operation: self.agent_operation@,
            function: self.function,
        }
    }
}

/// The text of the system message that asks the model to act as the AI
/// function whose text is `ai_function` on the input `func_input`.
pub open spec fn ai_function_text(ai_function: Seq<char>, func_input: Seq<char>) -> Seq<char> {
    "Function:"@ + ai_function
        + " \n    INSTRUCTION: You are a function printer. You only print the result function.\n    Nothing else. NO commentary. Here is the input to the fucntion:"@
        + func_input + ".\n    Print out what the function will return"@
}

/// The system message holds the whole of the AI function's text and the
/// whole input, each after its fixed lead-in, for texts of any length.
pub proof fn lemma_message_holds_function_and_whole_input(
    ai_function: Seq<char>,
    func_input: Seq<char>,
)
    ensures
        ({
            let head = "Function:"@;
            let instruction =
                " \n    INSTRUCTION: You are a function printer. You only print the result function.\n    Nothing else. NO commentary. Here is the input to the fucntion:"@;
            let tail = ".\n    Print out what the function will return"@;
            let text = ai_function_text(ai_function, func_input);
            let start: int = head.len() + ai_function.len() + instruction.len() as int;
            &&& text == head + ai_function + instruction + func_input + tail
            &&& text.len() == head.len() + ai_function.len() + instruction.len() + func_input.len()
                + tail.len()
            &&& text.subrange(head.len() as int, head.len() + ai_function.len() as int) == ai_function
            &&& text.subrange(start, start + func_input.len() as int) == func_input
            &&& text.subrange(start + func_input.len() as int, text.len() as int) == tail
        }),
{
    let head = "Function:"@;
    let instruction =
        " \n    INSTRUCTION: You are a function printer. You only print the result function.\n    Nothing else. NO commentary. Here is the input to the fucntion:"@;
    let tail = ".\n    Print out what the function will return"@;
    let text = ai_function_text(ai_function, func_input);
    let start: int = head.len() + ai_function.len() + instruction.len() as int;
    assert(text.subrange(head.len() as int, head.len() + ai_function.len() as int) =~= ai_function);
    assert(text.subrange(start, start + func_input.len() as int) =~= func_input);
    assert(text.subrange(start + func_input.len() as int, text.len() as int) =~= tail);
}

/// The system message that asks the model to act as the AI function whose
/// text is `ai_function_str` on the input `func_input`.
pub fn ai_function_message(ai_function_str: &str, func_input: &str) -> (msg: Message)
    ensures
        msg.role@ == "system"@,
        msg.content@ == ai_function_text(ai_function_str@, func_input@),
        msg.content@ == "Function:"@ + ai_function_str@
            + " \n    INSTRUCTION: You are a function printer. You only print the result function.\n    Nothing else. NO commentary. Here is the input to the fucntion:"@
            + func_input@ + ".\n    Print out what the function will return"@,
{
    let content = String::from_str("Function:").concat(ai_function_str).concat(
        " \n    INSTRUCTION: You are a function printer. You only print the result function.\n    Nothing else. NO commentary. Here is the input to the fucntion:",
    ).concat(func_input).concat(".\n    Print out what the function will return");
    Message { role: String::from_str("system"), content }
}

/// The system message that asks the model to act as `ai_func` on the input
/// `func_input`: `ai_func` is called once, on `func_input`, and what it
/// returns is the text of the function.
pub fn external_ai_function<F: Fn(&str) -> &'static str>(ai_func: F, func_input: &str) -> (msg:
    Message)
    requires
        call_requires(ai_func, (func_input,)),
    ensures
        msg.role@ == "system"@,
        exists|ai_function_str: &str|
            call_ensures(ai_func, (func_input,), ai_function_str) && msg.content@
                == ai_function_text(ai_function_str@, func_input@),
        exists|ai_function_str: &str|
            call_ensures(ai_func, (func_input,), ai_function_str) && msg.content@ == "Function:"@
                + ai_function_str@
                + " \n    INSTRUCTION: You are a function printer. You only print the result function.\n    Nothing else. NO commentary. Here is the input to the fucntion:"@
                + func_input@ + ".\n    Print out what the function will return"@,
{
    let ai_function_str = ai_func(func_input);
    ai_function_message(ai_function_str, func_input)
}

/// Which call to the language model a request is at: a request that fails
/// once is sent a second time.
#[derive(PartialEq, Eq, Structural, Debug, Clone, Copy)]
pub enum GptAttempt {
    First,
    Second,
}

/// What a request to the language model does after a reply.
#[derive(Debug)]
pub enum GptStep {
    /// The request is answered with this text.
    Answer(String),
    /// The request is sent again.
    Retry,
    /// The request has failed twice: it is given up.
    GiveUp,
}

/// What a request to the language model does after the reply to its
/// `attempt`, where `reply` is the text of the answer, or `None` where the
/// call failed.
pub fn ai_task_request_step(attempt: GptAttempt, reply: Option<String>) -> (step: GptStep)
    ensures
        reply is Some ==> (step matches GptStep::Answer(text) && text@ == reply->0@),
        reply is None && attempt == GptAttempt::First ==> step is Retry,
        reply is None && attempt == GptAttempt::Second ==> step is GiveUp,
{
    match reply {
        Some(text) => GptStep::Answer(text),
        None => match attempt {
            GptAttempt::First => GptStep::Retry,
            GptAttempt::Second => GptStep::GiveUp,
        },
    }
}

/// The text that `{:?}` writes for a string: what `<str as Debug>::fmt` writes.
pub uninterp spec fn debug_text(s: Seq<char>) -> Seq<char>;

/// The text that `{:?}` writes for an optional string: `None`, or `Some(`
/// followed by the string's own `{:?}` text and `)`.
pub open spec fn debug_option_text(s: Option<Seq<char>>) -> Seq<char> {
    match s {
        None => "None"@,
        Some(text) => "Some("@ + debug_text(text) + ")"@,
    }
}

/// The `{:?}` text of an absent string is `None`; that of a present one is
/// `Some(` followed by the string's own `{:?}` text and `)`.
pub proof fn lemma_debug_option_text(text: Seq<char>)
    ensures
        debug_option_text(None) == "None"@,
        debug_option_text(Some(text)) == "Some("@ + debug_text(text) + ")"@,
{
}

/// Formats `s` with `{:?}`, that is with `<str as Debug>::fmt` of std. The
/// contract claims only that the text depends on the text of `s` alone; what
/// it is (quotes and escapes) is left unsaid.
#[verifier::external_body]
pub(crate) fn debug_str(s: &str) -> (text: String)
    ensures
        text@ == debug_text(s@),
{
    format!("{:?}", s)
}

/// The text that `{:?}` writes for `s`.
pub(crate) fn debug_option_string(s: &Option<String>) -> (text: String)
    ensures
        text@ == debug_option_text(s.deep_view()),
{
    match s {
        None => String::from_str("None"),
        Some(inner) => String::from_str("Some(").concat(debug_str(inner.as_str()).as_str()).concat(
            ")",
        ),
    }
}

} // verus!
