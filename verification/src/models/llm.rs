use vstd::prelude::*;

verus! {

/// One message of a chat with the language model.
#[derive(Debug, Clone)]
pub struct Message {
    pub role: String,
    pub content: String,
}

/// A message as text: its role and its content.
pub struct MessageView {
    pub role: Seq<char>,
    pub content: Seq<char>,
}

impl View for Message {
    type V = MessageView;

    open spec fn view(&self) -> MessageView {
        MessageView { role: self.role@, content: self.content@ }
    }
}

/// The message part of one answer of the chat completion service.
#[derive(Debug)]
pub struct APIMessage {
    pub content: String,
}

/// One answer of the chat completion service.
#[derive(Debug)]
pub struct APIChoice {
    pub message: APIMessage,
}

/// What the chat completion service replies.
#[derive(Debug)]
pub struct APIResponse {
    pub choices: Vec<APIChoice>,
}

impl APIResponse {
    /// The content of the first answer of the reply.
    pub fn first_choice_content(&self) -> (content: String)
        requires
            self.choices.len() > 0,
        ensures
            content@ == self.choices[0].message.content@,
    {
        self.choices[0].message.content.clone()
    }
}

} // verus!
