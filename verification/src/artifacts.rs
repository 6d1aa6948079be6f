//! The named outputs of one generation, and the choice of the image to deliver.

use vstd::prelude::*;
use crate::named::{lemma_position_of, position_of, same_text};

verus! {

/// Why no image could be selected.
#[derive(Debug, Clone, Copy, PartialEq, Eq, Structural)]
pub enum SelectionError {
    /// The backend returned no artifact, or only empty ones.
    NoImageProduced,
}

/// One named output of the backend. `bytes` is empty where the backend
/// produced no image for that output node.
#[derive(Debug, PartialEq, Eq)]
pub struct Artifact {
    pub name: String,
    pub bytes: Vec<u8>,
}

impl View for Artifact {
    type V = (Seq<char>, Seq<u8>);

    open spec fn view(&self) -> (Seq<char>, Seq<u8>) {
        (self.name@, self.bytes@)
    }
}

/// No two entries of `entries` carry the same name.
pub open spec fn names_unique(entries: Seq<(Seq<char>, Seq<u8>)>) -> bool {
    forall|i: int, j: int|
        0 <= i < j < entries.len() ==> (#[trigger] entries[i]).0 != (#[trigger] entries[j]).0
}

/// `entries` after `name` has been bound to `bytes`: an existing entry keeps
/// its place and gets the new bytes, a new name goes to the end.
pub open spec fn bound(entries: Seq<(Seq<char>, Seq<u8>)>, name: Seq<char>, bytes: Seq<u8>) -> Seq<
    (Seq<char>, Seq<u8>),
> {
    let at = position_of(entries, name);
    if at < entries.len() {
        entries.update(at, (name, bytes))
    } else {
        entries.push((name, bytes))
    }
}

/// The bytes of the first entry that is not empty, if there is one.
pub open spec fn selected(entries: Seq<(Seq<char>, Seq<u8>)>) -> Option<Seq<u8>>
    decreases entries.len(),
{
    if entries.len() == 0 {
        None
    } else if entries[0].1.len() > 0 {
        Some(entries[0].1)
    } else {
        selected(entries.drop_first())
    }
}

/// Binding a name keeps the names unique.
pub proof fn lemma_bound_keeps_names_unique(
    entries: Seq<(Seq<char>, Seq<u8>)>,
    name: Seq<char>,
    bytes: Seq<u8>,
)
    requires
        names_unique(entries),
    ensures
        names_unique(bound(entries, name, bytes)),
{
    lemma_position_of(entries, name);
    let at = position_of(entries, name);
    let after = bound(entries, name, bytes);
    assert forall|i: int, j: int| 0 <= i < j < after.len() implies (#[trigger] after[i]).0 != (
    #[trigger] after[j]).0 by {
        if at < entries.len() {
            assert(after[i].0 == entries[i].0);
            assert(after[j].0 == entries[j].0);
        } else {
            if j < entries.len() {
                assert(after[i] == entries[i] && after[j] == entries[j]);
            } else {
                assert(after[i] == entries[i]);
            }
        }
    }
}

/// What `selected` picks: `Some(image)` exactly when some entry is not empty,
/// and then the bytes of the first such entry, which are never empty.
pub proof fn lemma_selected_is_first_nonempty(entries: Seq<(Seq<char>, Seq<u8>)>)
    ensures
        match selected(entries) {
            Some(image) => exists|i: int|
                0 <= i < entries.len() && image == (#[trigger] entries[i]).1 && image.len() > 0
                    && forall|j: int| 0 <= j < i ==> (#[trigger] entries[j]).1.len() == 0,
            None => forall|i: int| 0 <= i < entries.len() ==> (#[trigger] entries[i]).1.len() == 0,
        },
    decreases entries.len(),
{
    if entries.len() == 0 {
    } else if entries[0].1.len() > 0 {
        assert(entries[0].1 == selected(entries).unwrap());
    } else {
        let rest = entries.drop_first();
        lemma_selected_is_first_nonempty(rest);
        match selected(rest) {
            Some(image) => {
                let i = choose|i: int|
                    0 <= i < rest.len() && image == (#[trigger] rest[i]).1 && image.len() > 0
                        && forall|j: int| 0 <= j < i ==> (#[trigger] rest[j]).1.len() == 0;
                assert(entries[i + 1] == rest[i]);
                assert forall|j: int| 0 <= j < i + 1 implies (#[trigger] entries[j]).1.len()
                    == 0 by {
                    if j > 0 {
                        assert(entries[j] == rest[j - 1]);
                    }
                }
            },
            None => {
                assert forall|i: int| 0 <= i < entries.len() implies (#[trigger] entries[i]).1.len()
                    == 0 by {
                    if i > 0 {
                        assert(entries[i] == rest[i - 1]);
                    }
                }
            },
        }
    }
}

/// The artifacts of one generation: output-node name to image bytes, in the
/// order in which the names were first bound, each name at most once.
#[derive(Debug, PartialEq, Eq)]
pub struct ArtifactSet {
    entries: Vec<Artifact>,
}

impl View for ArtifactSet {
    type V = Seq<(Seq<char>, Seq<u8>)>;

    closed spec fn view(&self) -> Seq<(Seq<char>, Seq<u8>)> {
        Seq::new(self.entries@.len(), |i: int| self.entries@[i]@)
    }
}

impl ArtifactSet {
    #[verifier::type_invariant]
    spec fn names_are_unique(&self) -> bool {
        names_unique(self@)
    }

    /// The set without any artifact.
    pub fn new() -> (set: ArtifactSet)
        ensures
            set@ == Seq::<(Seq<char>, Seq<u8>)>::empty(),
    {
        ArtifactSet { entries: Vec::new() }
    }

    /// The number of artifacts.
    pub fn len(&self) -> (n: usize)
        ensures
            n == self@.len(),
            names_unique(self@),
    {
        proof {
            use_type_invariant(self);
        }
        self.entries.len()
    }

    /// The artifact at `index`, counted in insertion order; `None` past the
    /// end.
    pub fn entry(&self, index: usize) -> (found: Option<&Artifact>)
        ensures
            match found {
                Some(artifact) => index < self@.len() && artifact@ == self@[index as int],
                None => index >= self@.len(),
            },
    {
        if index < self.entries.len() {
            Some(&self.entries[index])
        } else {
            None
        }
    }

    /// The bytes bound to `name`, if the name is bound.
    pub fn get(&self, name: &str) -> (found: Option<&Vec<u8>>)
        ensures
            match found {
                Some(bytes) => position_of(self@, name@) < self@.len() && bytes@
                    == self@[position_of(self@, name@)].1,
                None => position_of(self@, name@) == self@.len(),
            },
    {
        let at = self.find(name);
        if at < self.entries.len() {
            Some(&self.entries[at].bytes)
        } else {
            None
        }
    }

    /// Binds `name` to `bytes`. A name that is already bound keeps its place
    /// and gets the new bytes; a new name goes to the end.
    pub fn insert(&mut self, name: String, bytes: Vec<u8>)
        ensures
            final(self)@ == bound(old(self)@, name@, bytes@),
            names_unique(final(self)@),
    {
        proof {
            use_type_invariant(&*self);
            lemma_bound_keeps_names_unique(self@, name@, bytes@);
        }
        let at = self.find(name.as_str());
        let mut entries: Vec<Artifact> = Vec::new();
        core::mem::swap(&mut self.entries, &mut entries);
        if at < entries.len() {
            entries.set(at, Artifact { name, bytes });
        } else {
            entries.push(Artifact { name, bytes });
        }
        assert(Seq::new(entries@.len(), |i: int| entries@[i]@) =~= bound(
            old(self)@,
            name@,
            bytes@,
        ));
        self.entries = entries;
    }

    fn find(&self, name: &str) -> (at: usize)
        ensures
            at == position_of(self@, name@),
            at <= self@.len(),
    {
        let mut at: usize = 0;
        assert(self@.skip(0) =~= self@);
        while at < self.entries.len()
            invariant
                at <= self.entries@.len(),
                position_of(self@, name@) == at + position_of(self@.skip(at as int), name@),
            decreases self.entries@.len() - at,
        {
            assert(self@.skip(at as int)[0] == self@[at as int]);
            assert(self@.skip(at as int).drop_first() =~= self@.skip(at as int + 1));
            if same_text(self.entries[at].name.as_str(), name) {
                return at;
            }
            at = at + 1;
        }
        assert(self@.skip(at as int).len() == 0);
        at
    }
}

/// Picks the image to deliver: the bytes of the first artifact, in insertion
/// order, that is not empty. Fails with `NoImageProduced` exactly when the
/// set is empty or holds only empty artifacts; a zero-length image is never
/// returned. The result depends on nothing but the contents and their order.
pub fn select(artifacts: &ArtifactSet) -> (result: Result<Vec<u8>, SelectionError>)
    ensures
        match result {
            Ok(image) => selected(artifacts@) == Some(image@) && image@.len() > 0,
            Err(error) => selected(artifacts@).is_none() && error == SelectionError::NoImageProduced,
        },
{
    let mut at: usize = 0;
    assert(artifacts@.skip(0) =~= artifacts@);
    while at < artifacts.len()
        invariant
            at <= artifacts@.len(),
            selected(artifacts@) == selected(artifacts@.skip(at as int)),
        decreases artifacts@.len() - at,
    {
        assert(artifacts@.skip(at as int)[0] == artifacts@[at as int]);
        assert(artifacts@.skip(at as int).drop_first() =~= artifacts@.skip(at as int + 1));
        if let Some(artifact) = artifacts.entry(at) {
            if artifact.bytes.len() > 0 {
                return Ok(artifact.bytes.clone());
            }
        }
        at = at + 1;
    }
    assert(artifacts@.skip(at as int).len() == 0);
    Err(SelectionError::NoImageProduced)
}

} // verus!
