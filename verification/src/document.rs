//! Structured documents: the tree of values that a generation graph is
//! written in, and reading and replacing the value at a path of member names.

use vstd::prelude::*;
use crate::named::{lemma_position_is, lemma_position_of, position_of, same_text};

verus! {

/// A structured value. Numbers are kept as the text of their literal, so
/// that a document can be carried through unchanged whatever it holds.
#[derive(Debug, PartialEq, Eq)]
pub enum Document {
    Null,
    Bool(bool),
    Number(String),
    Text(String),
    Array(Vec<Document>),
    Object(Vec<Member>),
}

/// A named value inside an object.
#[derive(Debug, PartialEq, Eq)]
pub struct Member {
    pub name: String,
    pub value: Document,
}

/// What a `Document` holds, as a mathematical value.
pub enum DocumentModel {
    Null,
    Bool(bool),
    Number(Seq<char>),
    Text(Seq<char>),
    Array(Seq<DocumentModel>),
    Object(Seq<(Seq<char>, DocumentModel)>),
}

impl View for Document {
    type V = DocumentModel;

    open spec fn view(&self) -> DocumentModel
        decreases self,
    {
        match self {
            Document::Null => DocumentModel::Null,
            Document::Bool(b) => DocumentModel::Bool(*b),
            Document::Number(literal) => DocumentModel::Number(literal@),
            Document::Text(text) => DocumentModel::Text(text@),
            Document::Array(items) => DocumentModel::Array(
                Seq::new(
                    items@.len(),
                    |i: int|
                        if 0 <= i < items@.len() {
                            items@[i].view()
                        } else {
                            DocumentModel::Null
                        },
                ),
            ),
            Document::Object(members) => DocumentModel::Object(
                Seq::new(
                    members@.len(),
                    |i: int|
                        (
                            members@[i].name@,
                            if 0 <= i < members@.len() {
                                members@[i].value.view()
                            } else {
                                DocumentModel::Null
                            },
                        ),
                ),
            ),
        }
    }
}

/// The members of an object, each as its name and the model of its value.
pub open spec fn members_model(members: Seq<Member>) -> Seq<(Seq<char>, DocumentModel)> {
    Seq::new(members.len(), |i: int| (members[i].name@, members[i].value@))
}

/// The names of a path, as plain texts.
pub open spec fn path_model(path: Seq<String>) -> Seq<Seq<char>> {
    Seq::new(path.len(), |i: int| path[i]@)
}

impl DocumentModel {
    /// The value of the first member called `name`, where `self` is an
    /// object that has such a member.
    pub open spec fn member(self, name: Seq<char>) -> Option<DocumentModel> {
        match self {
            DocumentModel::Object(members) => {
                let at = position_of(members, name);
                if at < members.len() {
                    Some(members[at].1)
                } else {
                    None
                }
            },
            _ => None,
        }
    }

    /// The value reached from `self` by following `path`, one member name
    /// after the other, if every name on the way resolves.
    pub open spec fn at(self, path: Seq<Seq<char>>) -> Option<DocumentModel>
        decreases path.len(),
    {
        if path.len() == 0 {
            Some(self)
        } else {
            match self.member(path[0]) {
                Some(child) => child.at(path.drop_first()),
                None => None,
            }
        }
    }

    /// `self` with the value at `path` replaced by `value`. Where `path`
    /// does not resolve, nothing is replaced.
    pub open spec fn with(self, path: Seq<Seq<char>>, value: DocumentModel) -> DocumentModel
        decreases path.len(),
    {
        if path.len() == 0 {
            value
        } else {
            match self {
                DocumentModel::Object(members) => {
                    let at = position_of(members, path[0]);
                    if at < members.len() {
                        DocumentModel::Object(
                            members.update(
                                at,
                                (members[at].0, members[at].1.with(path.drop_first(), value)),
                            ),
                        )
                    } else {
                        self
                    }
                },
                _ => self,
            }
        }
    }
}

/// Two paths that part ways: at some position both have a name, and the
/// names differ.
pub open spec fn diverge(p: Seq<Seq<char>>, q: Seq<Seq<char>>) -> bool {
    exists|i: int| 0 <= i < p.len() && 0 <= i < q.len() && #[trigger] p[i] != #[trigger] q[i]
        && forall|k: int| 0 <= k < i ==> #[trigger] p[k] == #[trigger] q[k]
}

/// Replacing along a path that does not resolve changes nothing.
pub proof fn lemma_with_unresolved(doc: DocumentModel, path: Seq<Seq<char>>, value: DocumentModel)
    requires
        doc.at(path).is_none(),
    ensures
        doc.with(path, value) == doc,
    decreases path.len(),
{
    if path.len() > 0 {
        match doc {
            DocumentModel::Object(members) => {
                let at = position_of(members, path[0]);
                lemma_position_of(members, path[0]);
                if at < members.len() {
                    lemma_with_unresolved(members[at].1, path.drop_first(), value);
                    assert(members.update(at, (members[at].0, members[at].1)) =~= members);
                }
            },
            _ => {},
        }
    }
}

/// After a replacement along a path that resolves, the path leads to the
/// new value.
pub proof fn lemma_with_then_at(doc: DocumentModel, path: Seq<Seq<char>>, value: DocumentModel)
    requires
        doc.at(path).is_some(),
    ensures
        doc.with(path, value).at(path) == Some(value),
    decreases path.len(),
{
    if path.len() > 0 {
        match doc {
            DocumentModel::Object(members) => {
                let at = position_of(members, path[0]);
                lemma_position_of(members, path[0]);
                let child = members[at].1.with(path.drop_first(), value);
                let after = members.update(at, (members[at].0, child));
                lemma_with_then_at(members[at].1, path.drop_first(), value);
                lemma_position_is(after, path[0], at);
            },
            _ => {},
        }
    }
}

/// A replacement along one path leaves what any diverging path leads to as
/// it was.
pub proof fn lemma_with_keeps_others(
    doc: DocumentModel,
    path: Seq<Seq<char>>,
    value: DocumentModel,
    other: Seq<Seq<char>>,
)
    requires
        diverge(path, other),
    ensures
        doc.with(path, value).at(other) == doc.at(other),
    decreases path.len(),
{
    let split = choose|i: int|
        0 <= i < path.len() && 0 <= i < other.len() && #[trigger] path[i] != #[trigger] other[i]
            && forall|k: int| 0 <= k < i ==> #[trigger] path[k] == #[trigger] other[k];
    match doc {
        DocumentModel::Object(members) => {
            let at = position_of(members, path[0]);
            lemma_position_of(members, path[0]);
            if at < members.len() {
                let child = members[at].1.with(path.drop_first(), value);
                let after = members.update(at, (members[at].0, child));
                let other_at = position_of(members, other[0]);
                lemma_position_of(members, other[0]);
                if split == 0 {
                    assert(after[at].0 != other[0]);
                    assert forall|i: int| 0 <= i < other_at implies (#[trigger] after[i]).0
                        != other[0] by {
                        assert(after[i].0 == members[i].0);
                    }
                    if other_at < members.len() {
                        assert(other_at != at);
                        assert(after[other_at] == members[other_at]);
                    }
                    lemma_position_is(after, other[0], other_at);
                } else {
                    assert(path[0] == other[0]);
                    lemma_position_is(after, path[0], at);
                    assert(diverge(path.drop_first(), other.drop_first())) by {
                        let p = path.drop_first();
                        let q = other.drop_first();
                        assert(p[split - 1] == path[split] && q[split - 1] == other[split]);
                        assert forall|k: int| 0 <= k < split - 1 implies #[trigger] p[k]
                            == #[trigger] q[k] by {
                            assert(p[k] == path[k + 1] && q[k] == other[k + 1]);
                        }
                    }
                    lemma_with_keeps_others(
                        members[at].1,
                        path.drop_first(),
                        value,
                        other.drop_first(),
                    );
                }
            }
        },
        _ => {},
    }
}

impl Document {
    /// A copy of the whole document.
    #[verifier::loop_isolation(false)]
    pub fn deep_copy(&self) -> (copy: Document)
        ensures
            copy@ == self@,
        decreases self,
    {
        match self {
            Document::Null => Document::Null,
            Document::Bool(b) => Document::Bool(*b),
            Document::Number(literal) => Document::Number(literal.clone()),
            Document::Text(text) => Document::Text(text.clone()),
            Document::Array(items) => {
                let mut copies: Vec<Document> = Vec::new();
                let mut i: usize = 0;
                while i < items.len()
                    invariant
                        i <= items@.len(),
                        copies@.len() == i,
                        forall|k: int| 0 <= k < i ==> (#[trigger] copies@[k])@ == items@[k]@,
                    decreases items@.len() - i,
                {
                    let copy = items[i].deep_copy();
                    copies.push(copy);
                    i = i + 1;
                }
                let copy = Document::Array(copies);
                assert(copy@ == self@) by {
                    assert(copy@->Array_0 =~= self@->Array_0);
                }
                copy
            },
            Document::Object(members) => {
                let copies = copy_members(members);
                let copy = Document::Object(copies);
                assert(copy@->Object_0 =~= members_model(copies@));
                assert(self@->Object_0 =~= members_model(members@));
                copy
            },
        }
    }

    /// The value of the first member called `name`, where `self` is an
    /// object that has such a member.
    pub fn member(&self, name: &str) -> (found: Option<&Document>)
        ensures
            match found {
                Some(value) => self@.member(name@) == Some(value@),
                None => self@.member(name@).is_none(),
            },
    {
        match self {
            Document::Object(members) => {
                assert(self@->Object_0 =~= members_model(members@));
                let at = find_member(members, name);
                if at < members.len() {
                    Some(&members[at].value)
                } else {
                    None
                }
            },
            _ => None,
        }
    }

    /// The value reached by following `path`, one member name after the
    /// other; `None` as soon as a name does not resolve.
    pub fn lookup(&self, path: &Vec<String>) -> (found: Option<&Document>)
        ensures
            match found {
                Some(value) => self@.at(path_model(path@)) == Some(value@),
                None => self@.at(path_model(path@)).is_none(),
            },
    {
        let ghost names = path_model(path@);
        let mut current: &Document = self;
        let mut i: usize = 0;
        assert(names.skip(0) =~= names);
        while i < path.len()
            invariant
                i <= path@.len(),
                names == path_model(path@),
                self@.at(names) == current@.at(names.skip(i as int)),
            decreases path@.len() - i,
        {
            assert(names.skip(i as int)[0] == path@[i as int]@);
            assert(names.skip(i as int).drop_first() =~= names.skip(i as int + 1));
            match current.member(path[i].as_str()) {
                Some(child) => {
                    current = child;
                },
                None => {
                    return None;
                },
            }
            i = i + 1;
        }
        Some(current)
    }

    /// A copy of the document in which the value at `path` is `value`.
    /// Where `path` does not resolve, the copy equals the document.
    pub fn replaced(&self, path: &Vec<String>, value: Document) -> (result: Document)
        ensures
            result@ == self@.with(path_model(path@), value@),
    {
        assert(path_model(path@).skip(0) =~= path_model(path@));
        self.replaced_from(path, 0, value)
    }

    fn replaced_from(&self, path: &Vec<String>, from: usize, value: Document) -> (result: Document)
        requires
            from <= path@.len(),
        ensures
            result@ == self@.with(path_model(path@).skip(from as int), value@),
        decreases path@.len() - from,
    {
        if from >= path.len() {
            return value;
        }
        let ghost names = path_model(path@).skip(from as int);
        assert(names[0] == path@[from as int]@);
        assert(names.drop_first() =~= path_model(path@).skip(from as int + 1));
        match self {
            Document::Object(members) => {
                assert(self@->Object_0 =~= members_model(members@));
                let at = find_member(members, path[from].as_str());
                if at < members.len() {
                    let child = members[at].value.replaced_from(path, from + 1, value);
                    let name = members[at].name.clone();
                    let mut copies = copy_members(members);
                    copies.set(at, Member { name, value: child });
                    let result = Document::Object(copies);
                    assert(result@->Object_0 =~= self@.with(names, value@)->Object_0);
                    result
                } else {
                    self.deep_copy()
                }
            },
            _ => self.deep_copy(),
        }
    }
}

/// A copy of every member, in order.
#[verifier::loop_isolation(false)]
fn copy_members(members: &Vec<Member>) -> (copies: Vec<Member>)
    ensures
        members_model(copies@) == members_model(members@),
    decreases members,
{
    let mut copies: Vec<Member> = Vec::new();
    let mut i: usize = 0;
    while i < members.len()
        invariant
            i <= members@.len(),
            copies@.len() == i,
            forall|k: int|
                0 <= k < i ==> (#[trigger] copies@[k]).name@ == members@[k].name@
                    && copies@[k].value@ == members@[k].value@,
        decreases members@.len() - i,
    {
        let name = members[i].name.clone();
        let value = members[i].value.deep_copy();
        copies.push(Member { name, value });
        i = i + 1;
    }
    assert(members_model(copies@) =~= members_model(members@));
    copies
}

/// The position of the first member called `name`, or the number of members.
fn find_member(members: &Vec<Member>, name: &str) -> (at: usize)
    ensures
        at == position_of(members_model(members@), name@),
        at <= members@.len(),
{
    let ghost model = members_model(members@);
    let mut at: usize = 0;
    assert(model.skip(0) =~= model);
    while at < members.len()
        invariant
            at <= members@.len(),
            model == members_model(members@),
            position_of(model, name@) == at + position_of(model.skip(at as int), name@),
        decreases members@.len() - at,
    {
        assert(model.skip(at as int)[0] == model[at as int]);
        assert(model.skip(at as int).drop_first() =~= model.skip(at as int + 1));
        if same_text(members[at].name.as_str(), name) {
            return at;
        }
        at = at + 1;
    }
    assert(model.skip(at as int).len() == 0);
    at
}

} // verus!
