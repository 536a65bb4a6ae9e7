//! The generic document tree that a descriptor is stored as, and how a key
//! is looked up in one of its mappings.

use vstd::prelude::*;

verus! {

/// A node of a structured document, as the codec reads and writes it.
#[derive(Debug, PartialEq)]
pub enum Document {
    /// The null value, also what an empty value stands for.
    Null,
    /// A boolean scalar.
    Bool(bool),
    /// A numeric scalar, kept as the codec holds it.
    Number(serde_yaml::Number),
    /// A string scalar.
    Text(String),
    /// An ordered sequence of nodes.
    List(Vec<Document>),
    /// A mapping, as its entries in document order.
    Table(Vec<(Document, Document)>),
    /// A node that carries an application tag, kept as the codec holds it.
    Tagged(serde_yaml::value::TaggedValue),
}

/// The mathematical value of a [`Document`].
pub enum DocumentView {
    Null,
    Bool(bool),
    Number(serde_yaml::Number),
    Text(Seq<char>),
    List(Seq<DocumentView>),
    Table(Seq<(DocumentView, DocumentView)>),
    Tagged(serde_yaml::value::TaggedValue),
}

/// The entries of a mapping, as mathematical values.
pub type TableView = Seq<(DocumentView, DocumentView)>;

/// The mathematical value of a node.
pub open spec fn tree(doc: Document) -> DocumentView
    decreases doc,
{
    match doc {
        Document::Null => DocumentView::Null,
        Document::Bool(b) => DocumentView::Bool(b),
        Document::Number(n) => DocumentView::Number(n),
        Document::Text(s) => DocumentView::Text(s@),
        Document::List(items) => DocumentView::List(
            Seq::new(
                items@.len(),
                |i: int|
                    if 0 <= i < items@.len() {
                        tree(items@[i])
                    } else {
                        DocumentView::Null
                    },
            ),
        ),
        Document::Table(entries) => DocumentView::Table(
            Seq::new(
                entries@.len(),
                |i: int|
                    if 0 <= i < entries@.len() {
                        (tree(entries@[i].0), tree(entries@[i].1))
                    } else {
                        (DocumentView::Null, DocumentView::Null)
                    },
            ),
        ),
        Document::Tagged(t) => DocumentView::Tagged(t),
    }
}

impl View for Document {
    type V = DocumentView;

    open spec fn view(&self) -> DocumentView {
        tree(*self)
    }
}

/// The values of a sequence of nodes.
pub open spec fn items_view(items: Seq<Document>) -> Seq<DocumentView> {
    Seq::new(items.len(), |i: int| items[i]@)
}

/// The values of the entries of a mapping.
pub open spec fn entries_view(entries: Seq<(Document, Document)>) -> TableView {
    Seq::new(entries.len(), |i: int| (entries[i].0@, entries[i].1@))
}

/// The value of a list node is the list of its items' values.
pub proof fn lemma_view_list(items: Vec<Document>)
    ensures
        Document::List(items)@ == DocumentView::List(items_view(items@)),
{
    assert(Document::List(items)@->List_0 =~= items_view(items@));
}

/// The value of a mapping node is the sequence of its entries' values.
pub proof fn lemma_view_table(entries: Vec<(Document, Document)>)
    ensures
        Document::Table(entries)@ == DocumentView::Table(entries_view(entries@)),
{
    assert(Document::Table(entries)@->Table_0 =~= entries_view(entries@));
}

/// What a mapping holds under one string key.
pub enum Entry {
    /// No entry has the key.
    Absent,
    /// Exactly one entry has the key, with this value.
    Once(DocumentView),
    /// Two or more entries have the key.
    Repeated,
}

impl DocumentView {
    /// The entries of a node that stands where a mapping is expected: those
    /// of a mapping, none for the null value, and `None` for any other node.
    pub open spec fn entries(self) -> Option<TableView> {
        match self {
            DocumentView::Table(entries) => Some(entries),
            DocumentView::Null => Some(Seq::empty()),
            _ => None,
        }
    }

    /// The entries of a node, none for a node that is no mapping.
    pub open spec fn members(self) -> TableView {
        match self {
            DocumentView::Table(entries) => entries,
            _ => Seq::empty(),
        }
    }
}

/// What `table` holds under the string key `key`.
pub open spec fn lookup(table: TableView, key: Seq<char>) -> Entry
    decreases table.len(),
{
    if table.len() == 0 {
        Entry::Absent
    } else if table.last().0 == DocumentView::Text(key) {
        match lookup(table.drop_last(), key) {
            Entry::Absent => Entry::Once(table.last().1),
            _ => Entry::Repeated,
        }
    } else {
        lookup(table.drop_last(), key)
    }
}

/// How two findings combine when one mapping's entries follow another's.
pub open spec fn combine(before: Entry, after: Entry) -> Entry {
    match (before, after) {
        (Entry::Absent, _) => after,
        (_, Entry::Absent) => before,
        _ => Entry::Repeated,
    }
}

/// A key is absent exactly when no entry has it.
pub proof fn lemma_lookup_absent(table: TableView, key: Seq<char>)
    ensures
        lookup(table, key) is Absent <==> forall|i: int|
            0 <= i < table.len() ==> (#[trigger] table[i]).0 != DocumentView::Text(key),
    decreases table.len(),
{
    if table.len() > 0 {
        let rest = table.drop_last();
        lemma_lookup_absent(rest, key);
        if lookup(table, key) is Absent {
            assert forall|i: int| 0 <= i < table.len() implies (#[trigger] table[i]).0
                != DocumentView::Text(key) by {
                if i < rest.len() {
                    assert(table[i] == rest[i]);
                }
            }
        } else if table.last().0 != DocumentView::Text(key) {
            let i = choose|i: int|
                0 <= i < rest.len() && (#[trigger] rest[i]).0 == DocumentView::Text(key);
            assert(table[i] == rest[i]);
        }
    }
}

/// A key is found once exactly when one entry has it and no other does;
/// the value found is that entry's.
pub proof fn lemma_lookup_once(table: TableView, key: Seq<char>, value: DocumentView)
    ensures
        lookup(table, key) == Entry::Once(value) <==> exists|i: int|
            0 <= i < table.len() && #[trigger] table[i] == (DocumentView::Text(key), value)
                && forall|j: int|
                0 <= j < table.len() && j != i ==> (#[trigger] table[j]).0 != DocumentView::Text(
                    key,
                ),
    decreases table.len(),
{
    if table.len() > 0 {
        let rest = table.drop_last();
        let n = rest.len() as int;
        lemma_lookup_once(rest, key, value);
        lemma_lookup_absent(rest, key);
        let stated = exists|i: int|
            0 <= i < table.len() && #[trigger] table[i] == (DocumentView::Text(key), value)
                && forall|j: int|
                0 <= j < table.len() && j != i ==> (#[trigger] table[j]).0 != DocumentView::Text(
                    key,
                );
        assert forall|j: int| 0 <= j < n implies table[j] == rest[j] by {}
        if lookup(table, key) == Entry::Once(value) {
            if table.last().0 == DocumentView::Text(key) {
                assert(table[n] == (DocumentView::Text(key), value));
                assert(stated);
            } else {
                let i = choose|i: int|
                    0 <= i < rest.len() && #[trigger] rest[i] == (DocumentView::Text(key), value)
                        && forall|j: int|
                        0 <= j < rest.len() && j != i ==> (#[trigger] rest[j]).0
                            != DocumentView::Text(key);
                assert(table[i] == (DocumentView::Text(key), value));
                assert forall|j: int| 0 <= j < table.len() && j != i implies (#[trigger] table[j]).0
                    != DocumentView::Text(key) by {
                    if j < n {
                        assert(table[j] == rest[j]);
                    }
                }
                assert(stated);
            }
        }
        if stated {
            let i = choose|i: int|
                0 <= i < table.len() && #[trigger] table[i] == (DocumentView::Text(key), value)
                    && forall|j: int|
                    0 <= j < table.len() && j != i ==> (#[trigger] table[j]).0
                        != DocumentView::Text(key);
            if i == n {
                assert forall|j: int| 0 <= j < rest.len() implies (#[trigger] rest[j]).0
                    != DocumentView::Text(key) by {
                    assert(table[j] == rest[j]);
                }
            } else {
                assert(rest[i] == (DocumentView::Text(key), value));
                assert forall|j: int| 0 <= j < rest.len() && j != i implies (#[trigger] rest[j]).0
                    != DocumentView::Text(key) by {
                    assert(table[j] == rest[j]);
                }
                assert(table[n].0 != DocumentView::Text(key));
            }
        }
    }
}

/// Looking a key up in two mappings put end to end combines what each holds.
pub proof fn lemma_lookup_concat(front: TableView, back: TableView, key: Seq<char>)
    ensures
        lookup(front + back, key) == combine(lookup(front, key), lookup(back, key)),
    decreases back.len(),
{
    if back.len() == 0 {
        assert(front + back =~= front);
    } else {
        assert((front + back).drop_last() =~= front + back.drop_last());
        assert((front + back).last() == back.last());
        lemma_lookup_concat(front, back.drop_last(), key);
    }
}

/// What `find` reports: the finding, with the node found borrowed.
pub enum Found<'a> {
    Absent,
    Once(&'a Document),
    Repeated,
}

impl<'a> View for Found<'a> {
    type V = Entry;

    open spec fn view(&self) -> Entry {
        match self {
            Found::Absent => Entry::Absent,
            Found::Once(doc) => Entry::Once(doc@),
            Found::Repeated => Entry::Repeated,
        }
    }
}

/// Looks the string key `key` up among the entries of the node `doc`. A
/// node that is no mapping has no entries.
pub fn find<'a>(doc: &'a Document, key: &str) -> (found: Found<'a>)
    ensures
        found@ == lookup(doc@.members(), key@),
{
    match doc {
        Document::Table(entries) => {
            proof {
                lemma_view_table(*entries);
            }
            let ghost table = entries_view(entries@);
            let wanted = key.to_owned();
            let mut found = Found::Absent;
            let mut i: usize = 0;
            while i < entries.len()
                invariant
                    i <= entries.len(),
                    table == entries_view(entries@),
                    wanted@ == key@,
                    found@ == lookup(table.take(i as int), key@),
                decreases entries.len() - i,
            {
                let ghost prefix = table.take(i as int + 1);
                assert(prefix.drop_last() =~= table.take(i as int));
                assert(prefix.last() == (entries@[i as int].0@, entries@[i as int].1@));
                let hit = match &entries[i].0 {
                    Document::Text(name) => *name == wanted,
                    _ => false,
                };
                if hit {
                    found = match found {
                        Found::Absent => Found::Once(&entries[i].1),
                        _ => Found::Repeated,
                    };
                }
                i += 1;
            }
            assert(table.take(i as int) =~= table);
            found
        },
        _ => Found::Absent,
    }
}

} // verus!
