//! Deriving a concrete generation request from the template.

use vstd::prelude::*;
use crate::document::{
    lemma_with_keeps_others,
    lemma_with_then_at,
    diverge,
    Document,
    DocumentModel,
};
use crate::error::{ErrorModel, GenerationError};
use crate::template::{
    is_complete,
    lemma_addresses_diverge,
    prompt_address,
    prompt_path,
    seed_address,
    seed_path,
    GenerationTemplate,
};
use crate::text::{decimal, decimal_text, is_trimmed};

verus! {

/// The graph of the request that `template` gives for `prompt` and `seed`:
/// the template with the prompt text and the seed written over the two
/// fields, and nothing else changed.
pub open spec fn derived(template: DocumentModel, prompt: Seq<char>, seed: u64) -> DocumentModel {
    template.with(prompt_address(), DocumentModel::Text(prompt)).with(
        seed_address(),
        DocumentModel::Number(decimal(seed as nat)),
    )
}

/// A graph that can be submitted: its prompt field holds a text that is not
/// empty, and its seed field holds a number.
pub open spec fn is_request(graph: DocumentModel) -> bool {
    &&& graph.at(prompt_address()) matches Some(DocumentModel::Text(prompt)) && prompt.len() > 0
    &&& graph.at(seed_address()) matches Some(DocumentModel::Number(_))
}

/// In a request derived from a complete template, the prompt field holds
/// the prompt, the seed field holds the seed in decimal, and every path
/// that diverges from both fields leads to what it led to in the template.
pub proof fn lemma_only_prompt_and_seed_change(
    template: DocumentModel,
    prompt: Seq<char>,
    seed: u64,
    other: Seq<Seq<char>>,
)
    requires
        is_complete(template),
    ensures
        derived(template, prompt, seed).at(prompt_address()) == Some(DocumentModel::Text(prompt)),
        derived(template, prompt, seed).at(seed_address()) == Some(
            DocumentModel::Number(decimal(seed as nat)),
        ),
        diverge(prompt_address(), other) && diverge(seed_address(), other) ==> derived(
            template,
            prompt,
            seed,
        ).at(other) == template.at(other),
{
    let text = DocumentModel::Text(prompt);
    let number = DocumentModel::Number(decimal(seed as nat));
    let with_prompt = template.with(prompt_address(), text);
    lemma_addresses_diverge();
    lemma_with_then_at(template, prompt_address(), text);
    lemma_with_keeps_others(template, prompt_address(), text, seed_address());
    lemma_with_then_at(with_prompt, seed_address(), number);
    lemma_with_keeps_others(with_prompt, seed_address(), number, prompt_address());
    if diverge(prompt_address(), other) && diverge(seed_address(), other) {
        lemma_with_keeps_others(template, prompt_address(), text, other);
        lemma_with_keeps_others(with_prompt, seed_address(), number, other);
    }
}

/// A concrete generation request: a copy of the template in which the prompt
/// field holds the requester's text and the seed field a drawn seed.
#[derive(Debug, PartialEq, Eq)]
pub struct GenerationRequest {
    graph: Document,
}

impl View for GenerationRequest {
    type V = DocumentModel;

    closed spec fn view(&self) -> DocumentModel {
        self.graph@
    }
}

impl GenerationRequest {
    #[verifier::type_invariant]
    spec fn fields_are_set(&self) -> bool {
        is_request(self@)
    }

    /// The graph to submit.
    pub fn graph(&self) -> (graph: &Document)
        ensures
            graph@ == self@,
            is_request(self@),
    {
        proof {
            use_type_invariant(self);
        }
        &self.graph
    }

    /// The graph to submit, by value.
    pub fn into_graph(self) -> (graph: Document)
        ensures
            graph@ == self@,
            is_request(self@),
    {
        proof {
            use_type_invariant(&self);
        }
        self.graph
    }

    /// The prompt that the request carries.
    pub fn prompt(&self) -> (prompt: String)
        ensures
            self@.at(prompt_address()) == Some(DocumentModel::Text(prompt@)),
            prompt@.len() > 0,
    {
        proof {
            use_type_invariant(self);
        }
        let path = prompt_path();
        match self.graph.lookup(&path) {
            Some(Document::Text(prompt)) => prompt.clone(),
            _ => String::new(),
        }
    }

    /// The seed that the request carries, as the text of its number.
    pub fn seed(&self) -> (seed: String)
        ensures
            self@.at(seed_address()) == Some(DocumentModel::Number(seed@)),
    {
        proof {
            use_type_invariant(self);
        }
        let path = seed_path();
        match self.graph.lookup(&path) {
            Some(Document::Number(seed)) => seed.clone(),
            _ => String::new(),
        }
    }
}

/// Draws the seed of a request from `rand::random`, which asks the
/// thread-local generator of the `rand` crate for a uniformly distributed
/// `u64`. Nothing is claimed of the value: any `u64` may come back, and two
/// calls may differ.
#[verifier::external_body]
pub(crate) fn draw_seed() -> u64 {
    rand::random::<u64>()
}

/// Derives the request for `prompt` with the given `seed`.
///
/// The request is the template with the prompt written over the prompt
/// field and the seed, in decimal, over the seed field; everything else is
/// copied. A template that lacks one of the two fields gives
/// `MalformedTemplate`, and no request.
pub fn build_with_seed(template: &GenerationTemplate, prompt: &str, seed: u64) -> (result: Result<
    GenerationRequest,
    GenerationError,
>)
    requires
        is_trimmed(prompt@),
        prompt@.len() > 0,
    ensures
        match result {
            Ok(request) => is_complete(template@) && request@ == derived(
                template@,
                prompt@,
                seed,
            ),
            Err(error) => !is_complete(template@) && error@ == ErrorModel::MalformedTemplate,
        },
{
    if !template.complete() {
        return Err(GenerationError::MalformedTemplate);
    }
    let to_prompt = prompt_path();
    let to_seed = seed_path();
    let with_prompt = template.graph().replaced(&to_prompt, Document::Text(String::from_str(prompt)));
    let graph = with_prompt.replaced(&to_seed, Document::Number(decimal_text(seed)));
    proof {
        lemma_only_prompt_and_seed_change(template@, prompt@, seed, Seq::empty());
    }
    Ok(GenerationRequest { graph })
}

/// Derives the request for `prompt` with a freshly drawn seed.
///
/// Succeeds exactly when the template has both fields; the request is then
/// `build_with_seed` of the template, the prompt and some seed. A template
/// that lacks one of the two fields gives `MalformedTemplate`.
pub fn build(template: &GenerationTemplate, prompt: &str) -> (result: Result<
    GenerationRequest,
    GenerationError,
>)
    requires
        is_trimmed(prompt@),
        prompt@.len() > 0,
    ensures
        match result {
            Ok(request) => is_complete(template@) && exists|seed: u64|
                request@ == #[trigger] derived(template@, prompt@, seed),
            Err(error) => !is_complete(template@) && error@ == ErrorModel::MalformedTemplate,
        },
{
    let seed = draw_seed();
    build_with_seed(template, prompt, seed)
}

} // verus!
