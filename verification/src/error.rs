//! Error types shared by every processing unit in the library.

use vstd::prelude::*;

verus! {

/// Mathematical mirror of [`AnchorChainError`]: each message is seen as a
/// sequence of characters, so that contracts can speak about errors without
/// depending on `String` object identity.
pub ghost enum ErrorV {
    /// A model returned no usable content.
    EmptyResponse,
    /// A prompt template could not be built or rendered.
    TeraTemplate(Seq<char>),
    /// A request could not be serialized or deserialized.
    Request(Seq<char>),
    /// Input data could not be parsed.
    Parse(Seq<char>),
    /// Input data was rejected.
    InvalidInput(Seq<char>),
    /// A model call failed or its response could not be processed.
    Model(Seq<char>),
}

/// The error type returned by processing units.
///
/// Errors coming from outside services are carried as their rendered message.
#[derive(Debug)]
pub enum AnchorChainError {
    /// No response was returned from the model.
    EmptyResponseError,
    /// Error constructing or rendering a prompt template.
    TeraTemplateError(String),
    /// Error serializing or deserializing a request.
    RequestError(String),
    /// Error parsing input.
    ParseError(String),
    /// Invalid input.
    InvalidInputError(String),
    /// Generic error calling a model.
    ModelError(String),
}

impl DeepView for AnchorChainError {
    type V = ErrorV;

    open spec fn deep_view(&self) -> ErrorV {
        match self {
            AnchorChainError::EmptyResponseError => ErrorV::EmptyResponse,
            AnchorChainError::TeraTemplateError(s) => ErrorV::TeraTemplate(s@),
            AnchorChainError::RequestError(s) => ErrorV::Request(s@),
            AnchorChainError::ParseError(s) => ErrorV::Parse(s@),
            AnchorChainError::InvalidInputError(s) => ErrorV::InvalidInput(s@),
            AnchorChainError::ModelError(s) => ErrorV::Model(s@),
        }
    }
}

impl Clone for AnchorChainError {
    fn clone(&self) -> (r: Self)
        ensures
            r.deep_view() == self.deep_view(),
    {
        match self {
            AnchorChainError::EmptyResponseError => AnchorChainError::EmptyResponseError,
            AnchorChainError::TeraTemplateError(s) => AnchorChainError::TeraTemplateError(
                s.clone(),
            ),
            AnchorChainError::RequestError(s) => AnchorChainError::RequestError(s.clone()),
            AnchorChainError::ParseError(s) => AnchorChainError::ParseError(s.clone()),
            AnchorChainError::InvalidInputError(s) => AnchorChainError::InvalidInputError(
                s.clone(),
            ),
            AnchorChainError::ModelError(s) => AnchorChainError::ModelError(s.clone()),
        }
    }
}

} // verus!
