//! Reading a document from JSON text. The text is parsed by `serde_json`;
//! what it finds is copied, node by node, into a `Document`.

use vstd::prelude::*;
use crate::document::{Document, DocumentModel, Member};

verus! {

/// `serde_json::Value`, a parsed JSON value. Nothing inside it is visible
/// here; what it holds is named by `json_model`.
#[verifier::external_type_specification]
#[verifier::external_body]
pub struct ExJsonValue(serde_json::Value);

/// `serde_json::Error`, what the parser reports for text that is not JSON.
/// It is carried and dropped, never read.
#[verifier::external_type_specification]
#[verifier::external_body]
pub struct ExJsonError(serde_json::Error);

/// What `serde_json::from_str` makes of `text` as a `serde_json::Value`,
/// written as a document; `None` where it reports an error.
pub uninterp spec fn parsed(text: Seq<char>) -> Option<DocumentModel>;

/// What a `serde_json::Value` holds, written as a document: a number as the
/// text that its `Display` prints, the members of an object in the order in
/// which the map hands them out.
pub uninterp spec fn json_model(value: serde_json::Value) -> DocumentModel;

/// One level of a `serde_json::Value`: its variant, with the fields of the
/// variant as they are.
enum Opened {
    Null,
    Bool(bool),
    Number(String),
    Text(String),
    Array(Vec<serde_json::Value>),
    Object(Vec<OpenedMember>),
}

/// A member of a JSON object, with its value still unopened.
struct OpenedMember {
    name: String,
    value: serde_json::Value,
}

/// What `opened` says of the value it came from: the variant is the same,
/// scalars are equal, and each child is the model of the child handed out
/// at its position.
spec fn opens_to(model: DocumentModel, opened: Opened) -> bool {
    match opened {
        Opened::Null => model == DocumentModel::Null,
        Opened::Bool(b) => model == DocumentModel::Bool(b),
        Opened::Number(literal) => model == DocumentModel::Number(literal@),
        Opened::Text(text) => model == DocumentModel::Text(text@),
        Opened::Array(items) => model == DocumentModel::Array(
            Seq::new(items@.len(), |i: int| json_model(items@[i])),
        ),
        Opened::Object(members) => model == DocumentModel::Object(
            Seq::new(members@.len(), |i: int| (members@[i].name@, json_model(members@[i].value))),
        ),
    }
}

/// Parses `text` with `serde_json::from_str` into a `serde_json::Value`.
/// The contract gives the outcome a name, as a function of the text alone:
/// `Some` with the value's model where the parser accepts the text, `None`
/// where it reports an error. Nothing is claimed of the error itself.
#[verifier::external_body]
fn parse_value(text: &str) -> (result: Result<serde_json::Value, serde_json::Error>)
    ensures
        match result {
            Ok(value) => parsed(text@) == Some(json_model(value)),
            Err(_) => parsed(text@).is_none(),
        },
{
    serde_json::from_str::<serde_json::Value>(text)
}

/// Takes one level of a `serde_json::Value` apart by matching on its
/// variants. Scalars are copied, a number as the text that
/// `serde_json::Number`'s `Display` prints; the items of an array and the
/// members of an object are handed out in their order, unopened.
#[verifier::external_body]
fn open(value: &serde_json::Value) -> (opened: Opened)
    ensures
        opens_to(json_model(*value), opened),
{
    match value {
        serde_json::Value::Null => Opened::Null,
        serde_json::Value::Bool(b) => Opened::Bool(*b),
        serde_json::Value::Number(number) => Opened::Number(number.to_string()),
        serde_json::Value::String(text) => Opened::Text(text.clone()),
        serde_json::Value::Array(items) => Opened::Array(items.clone()),
        serde_json::Value::Object(members) => Opened::Object(
            members
                .iter()
                .map(|(name, value)| OpenedMember { name: name.clone(), value: value.clone() })
                .collect(),
        ),
    }
}

/// Copies a parsed value into a document: the document holds what the
/// value holds, level by level.
#[verifier::loop_isolation(false)]
pub fn document_of(value: &serde_json::Value) -> (document: Document)
    ensures
        document@ == json_model(*value),
    decreases json_model(*value),
{
    match open(value) {
        Opened::Null => Document::Null,
        Opened::Bool(b) => Document::Bool(b),
        Opened::Number(literal) => Document::Number(literal),
        Opened::Text(text) => Document::Text(text),
        Opened::Array(items) => {
            let ghost models = json_model(*value)->Array_0;
            let mut lifted: Vec<Document> = Vec::new();
            let mut i: usize = 0;
            while i < items.len()
                invariant
                    i <= items@.len(),
                    lifted@.len() == i,
                    forall|k: int| 0 <= k < i ==> (#[trigger] lifted@[k])@ == json_model(items@[k]),
                decreases items@.len() - i,
            {
                assert(models[i as int] == json_model(items@[i as int]));
                let item = document_of(&items[i]);
                lifted.push(item);
                i = i + 1;
            }
            let document = Document::Array(lifted);
            assert(document@->Array_0 =~= models);
            document
        },
        Opened::Object(members) => {
            let ghost models = json_model(*value)->Object_0;
            let mut lifted: Vec<Member> = Vec::new();
            let mut i: usize = 0;
            while i < members.len()
                invariant
                    i <= members@.len(),
                    lifted@.len() == i,
                    forall|k: int|
                        0 <= k < i ==> (#[trigger] lifted@[k]).name@ == members@[k].name@
                            && lifted@[k].value@ == json_model(members@[k].value),
                decreases members@.len() - i,
            {
                assert(models[i as int].1 == json_model(members@[i as int].value));
                let name = members[i].name.clone();
                let item = document_of(&members[i].value);
                lifted.push(Member { name, value: item });
                i = i + 1;
            }
            let document = Document::Object(lifted);
            assert(document@->Object_0 =~= models);
            document
        },
    }
}

/// Reads a document from JSON text.
///
/// Returns the document that `serde_json` finds in `text`, and `None`
/// exactly when `serde_json` rejects the text.
pub fn parse_document(text: &str) -> (result: Option<Document>)
    ensures
        match result {
            Some(document) => parsed(text@) == Some(document@),
            None => parsed(text@).is_none(),
        },
{
    match parse_value(text) {
        Ok(value) => Some(document_of(&value)),
        Err(_) => None,
    }
}

} // verus!
