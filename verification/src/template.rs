//! The generation template: a fixed graph with two fields that every request
//! overwrites, the prompt text and the seed.

use vstd::prelude::*;
use crate::document::{path_model, Document, DocumentModel};
use crate::error::{ErrorModel, GenerationError};
use crate::json::{parse_document, parsed};

verus! {

/// The graph node that encodes the prompt.
pub const PROMPT_NODE: &'static str = "16";

/// The input of `PROMPT_NODE` that holds the prompt text.
pub const PROMPT_FIELD: &'static str = "text";

/// The graph node that samples the image.
pub const SEED_NODE: &'static str = "3";

/// The input of `SEED_NODE` that holds the seed.
pub const SEED_FIELD: &'static str = "seed";

/// The member of a graph node under which its inputs stand.
pub const INPUTS: &'static str = "inputs";

/// The path from the root of a graph to the prompt text.
pub open spec fn prompt_address() -> Seq<Seq<char>> {
    seq![PROMPT_NODE@, INPUTS@, PROMPT_FIELD@]
}

/// The path from the root of a graph to the seed.
pub open spec fn seed_address() -> Seq<Seq<char>> {
    seq![SEED_NODE@, INPUTS@, SEED_FIELD@]
}

/// The two overwritten fields lie in different nodes.
pub proof fn lemma_addresses_diverge()
    ensures
        crate::document::diverge(prompt_address(), seed_address()),
        crate::document::diverge(seed_address(), prompt_address()),
{
    reveal_strlit("16");
    reveal_strlit("3");
    assert(PROMPT_NODE@.len() != SEED_NODE@.len());
    assert(prompt_address()[0] != seed_address()[0]);
    assert(seed_address()[0] != prompt_address()[0]);
}

/// The path from the root of a graph to the prompt text.
pub fn prompt_path() -> (path: Vec<String>)
    ensures
        path_model(path@) == prompt_address(),
{
    let mut path: Vec<String> = Vec::new();
    path.push(String::from_str(PROMPT_NODE));
    path.push(String::from_str(INPUTS));
    path.push(String::from_str(PROMPT_FIELD));
    assert(path_model(path@) =~= prompt_address());
    path
}

/// The path from the root of a graph to the seed.
pub fn seed_path() -> (path: Vec<String>)
    ensures
        path_model(path@) == seed_address(),
{
    let mut path: Vec<String> = Vec::new();
    path.push(String::from_str(SEED_NODE));
    path.push(String::from_str(INPUTS));
    path.push(String::from_str(SEED_FIELD));
    assert(path_model(path@) =~= seed_address());
    path
}

/// A graph in which both overwritten fields exist.
pub open spec fn is_complete(graph: DocumentModel) -> bool {
    graph.at(prompt_address()).is_some() && graph.at(seed_address()).is_some()
}

/// The fixed graph from which every request is derived. It is never changed:
/// a request is a copy.
#[derive(Debug, PartialEq, Eq)]
pub struct GenerationTemplate {
    graph: Document,
}

impl View for GenerationTemplate {
    type V = DocumentModel;

    closed spec fn view(&self) -> DocumentModel {
        self.graph@
    }
}

impl GenerationTemplate {
    /// The template that holds `graph`.
    pub fn new(graph: Document) -> (template: GenerationTemplate)
        ensures
            template@ == graph@,
    {
        GenerationTemplate { graph }
    }

    /// Loads the template from the JSON text of its graph.
    ///
    /// Succeeds exactly when the text is JSON, and the template then holds
    /// what the text says. Loading the same text twice gives the same
    /// template. Text that is not JSON gives `MalformedTemplate`.
    pub fn load(text: &str) -> (result: Result<GenerationTemplate, GenerationError>)
        ensures
            match result {
                Ok(template) => parsed(text@) == Some(template@),
                Err(error) => parsed(text@).is_none() && error@ == ErrorModel::MalformedTemplate,
            },
    {
        match parse_document(text) {
            Some(graph) => Ok(GenerationTemplate { graph }),
            None => Err(GenerationError::MalformedTemplate),
        }
    }

    /// The graph of the template.
    pub fn graph(&self) -> (graph: &Document)
        ensures
            graph@ == self@,
    {
        &self.graph
    }

    /// Whether both overwritten fields exist in the template.
    pub fn complete(&self) -> (yes: bool)
        ensures
            yes == is_complete(self@),
    {
        let prompt = prompt_path();
        let seed = seed_path();
        self.graph.lookup(&prompt).is_some() && self.graph.lookup(&seed).is_some()
    }
}

} // verus!
