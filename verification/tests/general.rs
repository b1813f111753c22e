use rust_autogpt::base::general::{
    ai_function_message, ai_task_request_step, external_ai_function, GptAttempt, GptStep,
};
use rust_autogpt::models::llm::Message;

fn print_user_input_to_goal(_user_request: &str) -> &'static str {
    "fn print_user_input_to_goal(_user_request: &str) {
    /// Input: Takes in a user request
    /// Function: Converts user request into a short summarized goal
    /// Output: Prints goal. All outputs start with \"build a website that ...\"
    println!(OUTPUT)
}"
}

#[test]
fn tests_extending_ai_fun() {
    let extended_msg: Message = external_ai_function(print_user_input_to_goal, "dummmy variable");

    println!("{:?}", &extended_msg);
    assert_eq!(extended_msg.role, "system".to_string());
}

#[test]
fn extended_message_embeds_function_and_input() {
    let msg = external_ai_function(print_user_input_to_goal, "dummmy variable");
    let expected = format!(
        "Function:{} \n    INSTRUCTION: You are a function printer. You only print the result function.\n    Nothing else. NO commentary. Here is the input to the fucntion:{}.\n    Print out what the function will return",
        print_user_input_to_goal("dummmy variable"),
        "dummmy variable"
    );
    assert_eq!(msg.content, expected);
}

#[test]
fn ai_function_message_exact_text() {
    let msg = ai_function_message("F", "x");
    assert_eq!(msg.role, "system");
    assert_eq!(
        msg.content,
        "Function:F \n    INSTRUCTION: You are a function printer. You only print the result function.\n    Nothing else. NO commentary. Here is the input to the fucntion:x.\n    Print out what the function will return"
    );
}

#[test]
fn answered_request_gives_its_text() {
    match ai_task_request_step(GptAttempt::First, Some("a website".to_string())) {
        GptStep::Answer(text) => assert_eq!(text, "a website"),
        other => panic!("unexpected {:?}", other),
    }
    match ai_task_request_step(GptAttempt::Second, Some("again".to_string())) {
        GptStep::Answer(text) => assert_eq!(text, "again"),
        other => panic!("unexpected {:?}", other),
    }
}

#[test]
fn first_failure_is_retried_second_is_given_up() {
    assert!(matches!(ai_task_request_step(GptAttempt::First, None), GptStep::Retry));
    assert!(matches!(ai_task_request_step(GptAttempt::Second, None), GptStep::GiveUp));
}
