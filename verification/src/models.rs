//! Types shared with model backends.

pub mod bedrock_converse;
pub mod claude_3;
