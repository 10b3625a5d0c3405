//! The text of every open document, by the document's identifier.

use vstd::prelude::*;

verus! {

/// One open document: its identifier and its full current text.
#[derive(Clone, Debug)]
struct Document {
    uri: String,
    text: String,
}

/// The documents that the editor has open. It holds at most one text for an
/// identifier: the one of the last update under it.
///
/// The store is a plain value. A server that handles messages side by side
/// keeps it behind a lock, held for one call at a time; then every call sees
/// the whole text of some update, never parts of two.
#[derive(Debug)]
pub struct DocumentStore {
    entries: Vec<Document>,
}

/// Whether one of `entries` is kept under `uri`.
spec fn holds(entries: Seq<Document>, uri: Seq<char>) -> bool {
    exists|i: int| 0 <= i < entries.len() && #[trigger] entries[i].uri@ == uri
}

/// The place in `entries` of a document kept under `uri`.
spec fn place(entries: Seq<Document>, uri: Seq<char>) -> int {
    choose|i: int| 0 <= i < entries.len() && #[trigger] entries[i].uri@ == uri
}

/// No identifier occurs twice in `entries`.
spec fn distinct(entries: Seq<Document>) -> bool {
    forall|i: int, j: int|
        0 <= i < j < entries.len() ==> (#[trigger] entries[i]).uri@ != (#[trigger] entries[j]).uri@
}

/// The texts of `entries`, by identifier.
spec fn texts(entries: Seq<Document>) -> Map<Seq<char>, Seq<char>> {
    Map::new(|uri: Seq<char>| holds(entries, uri), |uri: Seq<char>| entries[place(entries, uri)].text@)
}

impl View for DocumentStore {
    type V = Map<Seq<char>, Seq<char>>;

    /// The text of each open document, by identifier.
    closed spec fn view(&self) -> Map<Seq<char>, Seq<char>> {
        texts(self.entries@)
    }
}

impl DocumentStore {
    #[verifier::type_invariant]
    spec fn well_formed(&self) -> bool {
        distinct(self.entries@)
    }

    /// A store without documents.
    pub fn new() -> (store: DocumentStore)
        ensures
            store@ == Map::<Seq<char>, Seq<char>>::empty(),
    {
        let store = DocumentStore { entries: Vec::new() };
        assert(store@ =~= Map::<Seq<char>, Seq<char>>::empty());
        store
    }

    /// Where the document `uri` is kept, if it is open.
    fn position(&self, uri: &String) -> (found: Option<usize>)
        ensures
            match found {
                Some(i) => i < self.entries.len() && self.entries[i as int].uri@ == uri@,
                None => !holds(self.entries@, uri@),
            },
    {
        let mut i: usize = 0;
        while i < self.entries.len()
            invariant
                i <= self.entries.len(),
                forall|k: int| 0 <= k < i ==> (#[trigger] self.entries[k]).uri@ != uri@,
            decreases self.entries.len() - i,
        {
            if self.entries[i].uri == *uri {
                return Some(i);
            }
            i += 1;
        }
        None
    }

    /// Puts `text` under `uri`: the text of a document that was not open is
    /// added, that of an open one is replaced. No other document changes.
    pub fn update(&mut self, uri: String, text: String)
        ensures
            final(self)@ == old(self)@.insert(uri@, text@),
    {
        proof {
            use_type_invariant(&*self);
        }
        let found = self.position(&uri);
        // The entries are taken out for the change and put back whole.
        let mut entries: Vec<Document> = Vec::new();
        core::mem::swap(&mut self.entries, &mut entries);
        let ghost before = entries@;
        match found {
            Some(i) => {
                entries[i].text = text;
                proof {
                    lemma_text_replaced(before, entries@, i as int);
                }
            },
            None => {
                entries.push(Document { uri, text });
                proof {
                    lemma_document_added(before, entries@);
                }
            },
        }
        self.entries = entries;
    }

    /// The current text of the document `uri`, if it is open.
    pub fn get(&self, uri: &str) -> (text: Option<&String>)
        ensures
            match text {
                Some(text) => self@.contains_key(uri@) && text@ == self@[uri@],
                None => !self@.contains_key(uri@),
            },
    {
        proof {
            use_type_invariant(self);
        }
        let key = String::from_str(uri);
        match self.position(&key) {
            Some(i) => {
                assert(self.entries@[i as int].uri@ == uri@);
                Some(&self.entries[i].text)
            },
            None => None,
        }
    }
}

/// Replacing the text of the entry at `i` puts the new text under that
/// entry's identifier and changes nothing else.
proof fn lemma_text_replaced(before: Seq<Document>, after: Seq<Document>, i: int)
    requires
        distinct(before),
        0 <= i < before.len(),
        after.len() == before.len(),
        after[i].uri@ == before[i].uri@,
        forall|k: int| 0 <= k < before.len() && k != i ==> after[k] == before[k],
    ensures
        distinct(after),
        texts(after) == texts(before).insert(before[i].uri@, after[i].text@),
{
    let uri = before[i].uri@;
    assert forall|k: int| 0 <= k < before.len() implies (#[trigger] after[k]).uri@
        == before[k].uri@ by {}
    assert forall|u: Seq<char>| holds(after, u) == holds(before, u) by {
        if holds(before, u) {
            assert(after[place(before, u)].uri@ == u);
        }
        if holds(after, u) {
            assert(before[place(after, u)].uri@ == u);
        }
    }
    assert(holds(before, uri));
    assert forall|u: Seq<char>| holds(after, u) implies #[trigger] texts(after)[u] == texts(
        before,
    ).insert(uri, after[i].text@)[u] by {
        assert(before[place(after, u)].uri@ == u);
    }
    assert(texts(after) =~= texts(before).insert(uri, after[i].text@));
}

/// Adding an entry under an identifier that was not kept puts its text under
/// that identifier and changes nothing else.
proof fn lemma_document_added(before: Seq<Document>, after: Seq<Document>)
    requires
        distinct(before),
        after.len() == before.len() + 1,
        forall|k: int| 0 <= k < before.len() ==> after[k] == before[k],
        !holds(before, after.last().uri@),
    ensures
        distinct(after),
        texts(after) == texts(before).insert(after.last().uri@, after.last().text@),
{
    let added = after.last();
    assert forall|u: Seq<char>| holds(after, u) == (holds(before, u) || u == added.uri@) by {
        if holds(before, u) {
            assert(after[place(before, u)].uri@ == u);
        }
        if holds(after, u) && u != added.uri@ {
            assert(before[place(after, u)].uri@ == u);
        }
        if u == added.uri@ {
            assert(after[after.len() - 1].uri@ == u);
        }
    }
    assert forall|u: Seq<char>| holds(after, u) implies #[trigger] texts(after)[u] == texts(
        before,
    ).insert(added.uri@, added.text@)[u] by {
        if u != added.uri@ {
            assert(before[place(after, u)].uri@ == u);
            assert(after[place(before, u)].uri@ == u);
        }
    }
    assert(texts(after) =~= texts(before).insert(added.uri@, added.text@));
}

} // verus!
