//! Message shapes for the chat-model backend.
//!
//! These structures describe the content sent to and received from the chat
//! models. Building the request body bytes and sending them belongs to the
//! surrounding program; the shapes and the extraction of a response's text
//! are the library's.

use vstd::prelude::*;
use vstd::string::StringExecFns;

use crate::error::AnchorChainError;

verus! {

/// A source of an image to be processed, encapsulating the necessary details
/// for image handling.
pub struct ClaudeImageSource {
    /// The data type of the source; only base64 data is in use.
    pub source_type: String,
    /// The media type of the image, e.g. a JPEG image.
    pub media_type: String,
    /// The base64-encoded image data.
    pub data: String,
}

/// One content item of a message: text or an image.
pub struct ClaudeMessageContent {
    /// The content type, e.g. text.
    pub content_type: String,
    /// The text content, if this item is text.
    pub text: Option<String>,
    /// The image source, if this item is an image.
    pub source: Option<ClaudeImageSource>,
}

/// A message to be sent to the model, comprising one or more content items.
pub struct ClaudeMessage {
    /// The role of the message, e.g. user.
    pub role: Option<String>,
    /// The content items within the message.
    pub content: Vec<ClaudeMessageContent>,
}

/// Builds the single-text message a plain prompt is wrapped in before it is
/// sent to the model.
pub fn text_message(role: &str, text: String) -> (r: ClaudeMessage)
    ensures
        r.role matches Some(s) && s@ == role@,
        r.content@.len() == 1,
        r.content@[0].content_type@ == "text"@,
        r.content@[0].text matches Some(t) && t@ == text@,
        r.content@[0].source is None,
{
    let mut content: Vec<ClaudeMessageContent> = Vec::new();
    content.push(
        ClaudeMessageContent {
            content_type: String::from_str("text"),
            text: Some(text),
            source: None,
        },
    );
    ClaudeMessage { role: Some(String::from_str(role)), content }
}

/// Extracts the text of the first content item of a model response.
///
/// A response without content is an empty-response error. The caller must
/// have checked that the first item, when present, carries text.
pub fn extract_first_text(content: &Vec<ClaudeMessageContent>) -> (r: Result<
    String,
    AnchorChainError,
>)
    requires
        content@.len() > 0 ==> content@[0].text is Some,
    ensures
        content@.len() == 0 ==> (r matches Err(e) && e is EmptyResponseError),
        content@.len() > 0 ==> (r matches Ok(t) && t@ == content@[0].text->Some_0@),
{
    if content.len() == 0 {
        Err(AnchorChainError::EmptyResponseError)
    } else {
        match &content[0].text {
            Some(t) => Ok(t.clone()),
            None => Err(AnchorChainError::EmptyResponseError),
        }
    }
}

} // verus!
