//! Model identifiers for the Bedrock converse backend.
//!
//! The identifiers are stable tags of this library; the surrounding program
//! maps each tag to the provider's concrete model identifier when it builds
//! its requests.

use vstd::prelude::*;

verus! {

/// The models reachable through the Bedrock converse backend.
#[derive(Clone, Copy, PartialEq, Eq, Structural, Debug)]
pub enum BedrockModel {
    /// The third-generation chat model.
    Claude3,
    /// The third-and-a-half-generation chat model.
    Claude3_5,
}

impl BedrockModel {
    /// The library's stable tag for the model.
    pub fn as_str(&self) -> (r: &'static str)
        ensures
            r@ == self.spec_model_id(),
    {
        match self {
            BedrockModel::Claude3 => "bedrock-chat-model-v3",
            BedrockModel::Claude3_5 => "bedrock-chat-model-v3-5",
        }
    }

    /// The library's stable tag for the model.
    pub open spec fn spec_model_id(&self) -> Seq<char> {
        match self {
            BedrockModel::Claude3 => "bedrock-chat-model-v3"@,
            BedrockModel::Claude3_5 => "bedrock-chat-model-v3-5"@,
        }
    }
}

} // verus!
