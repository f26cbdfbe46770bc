//! Generic message types usable with multiple model backends.
//!
//! These types represent messages sent to and received from models,
//! independent of any backend. Conversions turn them into the model-specific
//! message shapes.

use vstd::prelude::*;
use vstd::string::StringExecFns;

use crate::models::claude_3::ClaudeMessage;

verus! {

/// The content of a chat message: text or an image.
pub enum ChatMessageContent {
    /// Plain text.
    Text(String),
    /// A base64-encoded image.
    Image(String),
}

/// A message spoken by the user.
pub struct UserChatMessage {
    /// The message content.
    pub content: ChatMessageContent,
}

/// A message spoken by the assistant.
pub struct AssistantChatMessage {
    /// The message content.
    pub content: ChatMessageContent,
}

/// A chat message of either role.
pub enum ChatMessage {
    /// A message spoken by the user.
    User(UserChatMessage),
    /// A message spoken by the assistant.
    Assistant(AssistantChatMessage),
}

impl ChatMessage {
    /// The content of the message, whatever its role.
    pub open spec fn spec_content(&self) -> ChatMessageContent {
        match self {
            ChatMessage::User(m) => m.content,
            ChatMessage::Assistant(m) => m.content,
        }
    }

    /// The role name the message carries in a model conversation.
    pub open spec fn spec_role(&self) -> Seq<char> {
        match self {
            ChatMessage::User(_) => "user"@,
            ChatMessage::Assistant(_) => "assistant"@,
        }
    }

    /// Converts the message into the chat-model message shape. Image content
    /// has no conversion and is left out by the precondition.
    pub fn into_claude_message(self) -> (r: ClaudeMessage)
        requires
            self.spec_content() is Text,
        ensures
            r.role matches Some(s) && s@ == self.spec_role(),
            r.content@.len() == 1,
            r.content@[0].content_type@ == "text"@,
            r.content@[0].text matches Some(t) && t@ == self.spec_content()->Text_0@,
            r.content@[0].source is None,
    {
        match self {
            ChatMessage::User(m) => {
                match m.content {
                    ChatMessageContent::Text(text) => crate::models::claude_3::text_message(
                        "user",
                        text,
                    ),
                    ChatMessageContent::Image(_) => {
                        proof {
                            assert(false);
                        }
                        crate::models::claude_3::text_message("user", String::new())
                    },
                }
            },
            ChatMessage::Assistant(m) => {
                match m.content {
                    ChatMessageContent::Text(text) => crate::models::claude_3::text_message(
                        "assistant",
                        text,
                    ),
                    ChatMessageContent::Image(_) => {
                        proof {
                            assert(false);
                        }
                        crate::models::claude_3::text_message("assistant", String::new())
                    },
                }
            },
        }
    }
}

impl UserChatMessage {
    /// Creates a user message holding plain text.
    pub fn new_text(text: String) -> (r: Self)
        ensures
            r.content matches ChatMessageContent::Text(t) && t@ == text@,
    {
        UserChatMessage { content: ChatMessageContent::Text(text) }
    }
}

impl AssistantChatMessage {
    /// Creates an assistant message holding plain text.
    pub fn new_text(text: String) -> (r: Self)
        ensures
            r.content matches ChatMessageContent::Text(t) && t@ == text@,
    {
        AssistantChatMessage { content: ChatMessageContent::Text(text) }
    }
}

} // verus!
