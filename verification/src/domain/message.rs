//! One message of a chat conversation, as the Ollama chat API exchanges it.

use vstd::prelude::*;

verus! {

/// The abstract content of a chat message: its role and its text.
pub struct MessageView {
    pub role: Seq<char>,
    pub content: Seq<char>,
}

/// The role of a system pre-prompt.
pub open spec fn system_role() -> Seq<char> {
    "system"@
}

/// The role of a message written by the user.
pub open spec fn user_role() -> Seq<char> {
    "user"@
}

/// The role of a message written by the model.
pub open spec fn assistant_role() -> Seq<char> {
    "assistant"@
}

/// A system message with the given text.
pub open spec fn system_message(content: Seq<char>) -> MessageView {
    MessageView { role: system_role(), content }
}

/// A user message with the given text.
pub open spec fn user_message(content: Seq<char>) -> MessageView {
    MessageView { role: user_role(), content }
}

/// An assistant message with the given text.
pub open spec fn assistant_message(content: Seq<char>) -> MessageView {
    MessageView { role: assistant_role(), content }
}

/// A single chat message (`role` is `"system"`, `"user"` or `"assistant"`).
#[derive(Debug, PartialEq, Eq)]
pub struct ChatMessage {
    pub role: String,
    pub content: String,
}

impl View for ChatMessage {
    type V = MessageView;

    open spec fn view(&self) -> MessageView {
        MessageView { role: self.role@, content: self.content@ }
    }
}

/// The abstract contents of a sequence of messages.
pub open spec fn messages_view(ms: Seq<ChatMessage>) -> Seq<MessageView> {
    ms.map_values(|m: ChatMessage| m@)
}

impl Clone for ChatMessage {
    fn clone(&self) -> (r: Self)
        ensures
            r == *self,
    {
        ChatMessage { role: self.role.clone(), content: self.content.clone() }
    }
}

impl ChatMessage {
    /// A system pre-prompt message.
    pub fn system(content: &str) -> (m: ChatMessage)
        ensures
            m@ == system_message(content@),
    {
        ChatMessage { role: String::from_str("system"), content: String::from_str(content) }
    }

    /// A message written by the user.
    pub fn user(content: &str) -> (m: ChatMessage)
        ensures
            m@ == user_message(content@),
    {
        ChatMessage { role: String::from_str("user"), content: String::from_str(content) }
    }

    /// A message written by the model.
    pub fn assistant(content: &str) -> (m: ChatMessage)
        ensures
            m@ == assistant_message(content@),
    {
        ChatMessage { role: String::from_str("assistant"), content: String::from_str(content) }
    }
}

} // verus!
