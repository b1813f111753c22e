use rust_autogpt::models::llm::{APIChoice, APIMessage, APIResponse, Message};
use rust_autogpt::requests::call_request::authorization_value;

#[test]
fn authorization_is_bearer_key() {
    assert_eq!(authorization_value("sk-123"), "Bearer sk-123");
    assert_eq!(authorization_value(""), "Bearer ");
}

#[test]
fn first_choice_content_is_taken() {
    let res = APIResponse {
        choices: vec![
            APIChoice { message: APIMessage { content: "first".to_string() } },
            APIChoice { message: APIMessage { content: "second".to_string() } },
        ],
    };
    assert_eq!(res.first_choice_content(), "first");
}

#[test]
fn message_clone_keeps_fields() {
    let m = Message { role: "user".to_string(), content: "hi".to_string() };
    let c = m.clone();
    assert_eq!(c.role, "user");
    assert_eq!(c.content, "hi");
}
