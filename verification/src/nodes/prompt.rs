//! A node that renders a text prompt from a template.
//!
//! The [`Prompt`] node holds a template and renders it against the keyed
//! context it receives as input, substituting context values into the
//! template's placeholders. The rendering itself is done by the tera template
//! engine.
//!
//! The engine's rendering is not a function of the template and the context
//! alone: a template can build a map of its own and iterate it, and the
//! engine walks maps in an unspecified order, so two renderings of one
//! template against one context may differ. The rendering contract is
//! therefore relational — [`render_outcome`] names which outcomes the engine
//! may produce — and the prompt stage is a [`Stateful`]-interface unit with a
//! relational contract, like the other units whose outcomes the library
//! cannot pin down.

use vstd::prelude::*;
use vstd::string::StringExecFns;

use crate::error::{AnchorChainError, ErrorV};
use crate::node::{outcome_view, Stateful};
use crate::shared_state::SharedState;
use crate::state_manager::{view_pairs_map, StateManager};

verus! {

/// Which outcomes the template engine may produce for a template and a
/// string-valued context: a rendered text, or an engine error message.
pub uninterp spec fn render_outcome(
    template: Seq<char>,
    context: Map<Seq<char>, Seq<char>>,
    outcome: Result<Seq<char>, Seq<char>>,
) -> bool;

/// Relies on tera's `Tera::add_raw_template` and `Tera::render`: the body
/// builds the engine, adds the template, fills the context pair by pair
/// (later pairs override earlier ones, matching the contract's map) and
/// renders. The contract names the outcome only as one the engine may
/// produce for this template and context: rendering may depend on the
/// engine's internal iteration order, so no function of the arguments is
/// claimed.
#[verifier::external_body]
fn render_template(template: &String, context: &Vec<(String, String)>) -> (r: Result<
    String,
    String,
>)
    ensures
        render_outcome(
            template@,
            view_pairs_map(context.deep_view()),
            match r {
                Ok(s) => Ok(s@),
                Err(m) => Err(m@),
            },
        ),
{
    let mut tera = tera::Tera::new();
    if let Err(e) = tera.add_raw_template("prompt", template) {
        return Err(e.to_string());
    }
    let mut ctx = tera::Context::new();
    for (key, value) in context {
        ctx.insert(key.clone(), value);
    }
    match tera.render("prompt", &ctx) {
        Ok(s) => Ok(s),
        Err(e) => Err(e.to_string()),
    }
}

/// A node that renders a text prompt within a processing chain.
///
/// The input is a keyed context of string values; the output is the template
/// rendered against that context. A template that cannot be built or
/// rendered surfaces as a template error.
pub struct Prompt {
    /// The template text rendered on each processed input.
    pub template: String,
}

impl Prompt {
    /// Creates a new `Prompt` node with the specified template.
    pub fn new(template: &str) -> (r: Self)
        ensures
            r.template@ == template@,
    {
        Prompt { template: String::from_str(template) }
    }
}

impl Stateful<String> for Prompt {
    type Input = StateManager<String>;

    type Output = String;

    /// The prompt keeps no shared state; injecting a store changes nothing.
    open spec fn spec_set(&self, post: Self) -> bool {
        post == *self
    }

    /// One of the engine's possible renderings of the template against the
    /// context, or a template error carrying one of the engine's possible
    /// error messages.
    open spec fn spec_outcome(
        &self,
        iv: Map<Seq<char>, Seq<char>>,
        out: Result<Seq<char>, ErrorV>,
    ) -> bool {
        match out {
            Ok(s) => render_outcome(self.template@, iv, Ok(s)),
            Err(e) => e matches ErrorV::TeraTemplate(m) && render_outcome(
                self.template@,
                iv,
                Err(m),
            ),
        }
    }

    /// Processing changes nothing about the node itself.
    open spec fn spec_advances(&self, iv: Map<Seq<char>, Seq<char>>, post: Self) -> bool {
        post == *self
    }

    fn set_state(&mut self, state: SharedState<String>)
        ensures
            old(self).spec_set(*final(self)),
    {
    }

    /// Renders the template against the input context.
    fn process(&mut self, input: StateManager<String>) -> (r: Result<String, AnchorChainError>)
        ensures
            old(self).spec_outcome(input.deep_view(), outcome_view(r)),
            old(self).spec_advances(input.deep_view(), *final(self)),
    {
        let pairs = input.entries_vec();
        let rendered = render_template(&self.template, &pairs);
        proof {
            assert(view_pairs_map(pairs.deep_view()) == input.deep_view());
        }
        match rendered {
            Ok(s) => Ok(s),
            Err(m) => Err(AnchorChainError::TeraTemplateError(m)),
        }
    }
}

} // verus!
