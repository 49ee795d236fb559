//! The note store: the collection of notes as it is kept on disk, with the
//! operations that create, extend and reload it.
use vstd::prelude::*;

verus! {

/// A note as the specifications see it: identifier, title and content.
pub type NoteV = (Seq<char>, Seq<char>, Seq<char>);

/// One persisted note. `uuid` is its identifier, also the key under which the
/// note is stored.
pub struct Note {
    pub uuid: String,
    pub title: String,
    pub content: String,
}

impl View for Note {
    type V = NoteV;

    open spec fn view(&self) -> NoteV {
        (self.uuid@, self.title@, self.content@)
    }
}

/// What the listing page shows of a note.
pub struct NoteDetails {
    pub title: String,
    pub content: String,
}

impl View for NoteDetails {
    type V = (Seq<char>, Seq<char>);

    open spec fn view(&self) -> (Seq<char>, Seq<char>) {
        (self.title@, self.content@)
    }
}

/// Why the store refused an operation.
#[derive(Clone, Copy, Debug, PartialEq, Eq, Structural)]
pub enum StoreError {
    /// The stored entries do not form a valid collection.
    Corrupt,
    /// A new note came with an identifier that is already taken.
    DuplicateId,
}

/// The title and the content of the note that a new store starts with.
pub open spec fn seed_text() -> Seq<char> {
    "Hello World"@
}

/// No two notes of `s` share an identifier.
pub open spec fn ids_distinct(s: Seq<NoteV>) -> bool {
    forall|i: int, j: int| 0 <= i < s.len() && 0 <= j < s.len() && i != j ==> s[i].0 != s[j].0
}

/// Some note of `s` has the identifier `id`.
pub open spec fn has_id(s: Seq<NoteV>, id: Seq<char>) -> bool {
    exists|i: int| 0 <= i < s.len() && s[i].0 == id
}

/// `s` is a freshly seeded collection: one note whose title and content are
/// the seed text.
pub open spec fn is_seed(s: Seq<NoteV>) -> bool {
    s.len() == 1 && s[0].1 == seed_text() && s[0].2 == seed_text()
}

/// `after` is `before` with one note appended that has the given title and
/// content and an identifier that `before` did not hold.
pub open spec fn appended(
    before: Seq<NoteV>,
    after: Seq<NoteV>,
    title: Seq<char>,
    content: Seq<char>,
) -> bool {
    exists|id: Seq<char>| !has_id(before, id) && after == before.push((id, title, content))
}

/// The set of `(id, title, content)` triples of a collection.
pub open spec fn note_set(s: Seq<NoteV>) -> Set<NoteV> {
    s.to_set()
}

/// The stored form of a collection: each note under its own identifier.
pub open spec fn entries_of(s: Seq<NoteV>) -> Seq<(Seq<char>, NoteV)> {
    s.map_values(|n: NoteV| (n.0, n))
}

/// Stored entries form a collection: no key repeats.
pub open spec fn entries_valid(e: Seq<(Seq<char>, NoteV)>) -> bool {
    ids_distinct(notes_of(e))
}

/// The notes held by stored entries, in their order, each under its key: the
/// key is the note's identifier, whatever identifier its record repeats.
pub open spec fn notes_of(e: Seq<(Seq<char>, NoteV)>) -> Seq<NoteV> {
    e.map_values(|p: (Seq<char>, NoteV)| (p.0, p.1.1, p.1.2))
}

/// The view of stored entries as exec values.
pub open spec fn entries_view(e: Seq<(String, Note)>) -> Seq<(Seq<char>, NoteV)> {
    e.map_values(|p: (String, Note)| (p.0@, p.1@))
}

/// The whole collection of notes, in insertion order. Identifiers are unique.
pub struct NoteFile {
    notes: Vec<Note>,
}

impl View for NoteFile {
    type V = Seq<NoteV>;

    closed spec fn view(&self) -> Seq<NoteV> {
        self.notes@.map_values(|n: Note| n@)
    }
}


/// No stored identifier has the length of a drawn one, so no drawn
/// identifier can be taken.
pub open spec fn no_drawn_length_ids(s: Seq<NoteV>) -> bool {
    forall|i: int| 0 <= i < s.len() ==> #[trigger] s[i].0.len() != 36
}

/// The listing of a collection: title and content of each note, in order.
pub open spec fn details_of(s: Seq<NoteV>) -> Seq<(Seq<char>, Seq<char>)> {
    s.map_values(|n: NoteV| (n.1, n.2))
}

/// Relies on uuid::Uuid::new_v4 and the Display of uuid::Uuid: a random
/// version-4 identifier, written in its hyphenated form of 36 characters.
#[verifier::external_body]
fn new_note_id() -> (r: String)
    ensures
        r@.len() == 36,
{
    uuid::Uuid::new_v4().to_string()
}

impl NoteFile {
    /// Identifiers are unique within the collection.
    pub open spec fn wf(&self) -> bool {
        ids_distinct(self@)
    }

    /// The number of notes.
    pub fn len(&self) -> (r: usize)
        ensures
            r == self@.len(),
    {
        self.notes.len()
    }

    /// Whether a note with identifier `id` is stored.
    pub fn contains_id(&self, id: &String) -> (r: bool)
        ensures
            r == has_id(self@, id@),
    {
        let mut i: usize = 0;
        while i < self.notes.len()
            invariant
                0 <= i <= self.notes@.len(),
                forall|j: int| 0 <= j < i ==> self@[j].0 != id@,
            decreases self.notes@.len() - i,
        {
            if self.notes[i].uuid == *id {
                assert(self@[i as int].0 == id@);
                return true;
            }
            i = i + 1;
        }
        false
    }

    /// Appends `note`, unless its identifier is already taken; then the
    /// collection stays as it was.
    pub fn insert(&mut self, note: Note) -> (r: Result<(), StoreError>)
        ensures
            r is Ok <==> !has_id(old(self)@, note.uuid@),
            r is Ok ==> final(self)@ == old(self)@.push(note@),
            r is Err ==> r == Err::<(), StoreError>(StoreError::DuplicateId) && final(self)@ == old(
                self,
            )@,
            old(self).wf() ==> final(self).wf(),
    {
        if self.contains_id(&note.uuid) {
            return Err(StoreError::DuplicateId);
        }
        let ghost before = self@;
        let ghost n = note@;
        self.notes.push(note);
        assert(self@ =~= before.push(n));
        Ok(())
    }

    /// Title and content of each note, in the collection's order.
    pub fn note_details(&self) -> (r: Vec<NoteDetails>)
        ensures
            r@.map_values(|d: NoteDetails| d@) == details_of(self@),
    {
        let mut r: Vec<NoteDetails> = Vec::new();
        let mut i: usize = 0;
        while i < self.notes.len()
            invariant
                0 <= i <= self.notes@.len(),
                r@.len() == i,
                forall|j: int| 0 <= j < i ==> #[trigger] r@[j]@ == (self@[j].1, self@[j].2),
            decreases self.notes@.len() - i,
        {
            let n = &self.notes[i];
            r.push(NoteDetails { title: n.title.clone(), content: n.content.clone() });
            i = i + 1;
        }
        assert(r@.map_values(|d: NoteDetails| d@) =~= details_of(self@));
        r
    }

    /// The stored form of the collection: each note under its identifier.
    pub fn to_entries(&self) -> (r: Vec<(String, Note)>)
        ensures
            entries_view(r@) == entries_of(self@),
    {
        let mut r: Vec<(String, Note)> = Vec::new();
        let mut i: usize = 0;
        while i < self.notes.len()
            invariant
                0 <= i <= self.notes@.len(),
                r@.len() == i,
                forall|j: int|
                    0 <= j < i ==> (#[trigger] r@[j]).0@ == self@[j].0 && r@[j].1@ == self@[j],
            decreases self.notes@.len() - i,
        {
            let n = &self.notes[i];
            let note = Note {
                uuid: n.uuid.clone(),
                title: n.title.clone(),
                content: n.content.clone(),
            };
            r.push((n.uuid.clone(), note));
            i = i + 1;
        }
        assert(entries_view(r@) =~= entries_of(self@));
        r
    }
}

/// A new collection holding the seed note under identifier `id`.
pub fn seed_with_id(id: String) -> (r: NoteFile)
    ensures
        r@ == seq![(id@, seed_text(), seed_text())],
        r.wf(),
        is_seed(r@),
{
    let note = Note { uuid: id, title: "Hello World".to_owned(), content: "Hello World".to_owned() };
    let mut notes: Vec<Note> = Vec::new();
    notes.push(note);
    let r = NoteFile { notes };
    assert(r@ =~= seq![(note@.0, seed_text(), seed_text())]);
    r
}

/// A new collection holding the seed note under a fresh random identifier.
pub fn gen_notes() -> (r: NoteFile)
    ensures
        is_seed(r@),
        r@[0].0.len() == 36,
        r.wf(),
{
    seed_with_id(new_note_id())
}

/// Rebuilds a collection from its stored entries, each note under its key.
/// They are refused as corrupt where a key repeats.
pub fn get_posts(entries: Vec<(String, Note)>) -> (r: Result<NoteFile, StoreError>)
    ensures
        r is Ok <==> entries_valid(entries_view(entries@)),
        r is Err ==> r == Err::<NoteFile, StoreError>(StoreError::Corrupt),
        r matches Ok(f) ==> f@ == notes_of(entries_view(entries@)) && f.wf(),
{
    let ghost e = entries_view(entries@);
    let mut f = NoteFile { notes: Vec::new() };
    let mut i: usize = 0;
    assert(f@ =~= notes_of(e).take(0));
    while i < entries.len()
        invariant
            0 <= i <= entries@.len(),
            e == entries_view(entries@),
            f@ == notes_of(e).take(i as int),
            f.wf(),
        decreases entries@.len() - i,
    {
        let key = &entries[i].0;
        let n = &entries[i].1;
        let note = Note { uuid: key.clone(), title: n.title.clone(), content: n.content.clone() };
        match f.insert(note) {
            Ok(()) => {},
            Err(_) => {
                proof {
                    let k = choose|k: int| 0 <= k < f@.len() && f@[k].0 == e[i as int].0;
                    assert(notes_of(e)[k].0 == notes_of(e)[i as int].0);
                }
                return Err(StoreError::Corrupt);
            },
        }
        assert(f@ =~= notes_of(e).take(i + 1));
        i = i + 1;
    }
    assert(f@ =~= notes_of(e));
    Ok(f)
}

/// Appends a note with the given title and content under a fresh random
/// identifier. Where that identifier is already taken, nothing changes; that
/// cannot happen where no stored identifier has the length of a drawn one.
pub fn add_post(notes: &mut NoteFile, title: String, content: String) -> (r: Result<(), StoreError>)
    ensures
        no_drawn_length_ids(old(notes)@) ==> r is Ok,
        r is Ok ==> appended(old(notes)@, final(notes)@, title@, content@),
        r is Err ==> r == Err::<(), StoreError>(StoreError::DuplicateId) && final(notes)@ == old(
            notes,
        )@,
        old(notes).wf() ==> final(notes).wf(),
{
    let id = new_note_id();
    let ghost idv = id@;
    let r = notes.insert(Note { uuid: id, title, content });
    assert(r is Ok ==> final(notes)@ == old(notes)@.push((idv, title@, content@)));
    r
}

/// Round trip of the stored form: the entries that a well-formed collection is
/// stored as are accepted when read back, and give the same notes in the same
/// order, so in particular the same set of `(id, title, content)` triples.
pub proof fn lemma_round_trip(s: Seq<NoteV>)
    requires
        ids_distinct(s),
    ensures
        entries_valid(entries_of(s)),
        notes_of(entries_of(s)) == s,
        note_set(notes_of(entries_of(s))) == note_set(s),
{
    assert(notes_of(entries_of(s)) =~= s);
}

/// Appending a note under an identifier that is not yet taken keeps the
/// identifiers distinct.
pub proof fn lemma_appended_keeps_ids_distinct(
    before: Seq<NoteV>,
    after: Seq<NoteV>,
    title: Seq<char>,
    content: Seq<char>,
)
    requires
        ids_distinct(before),
        appended(before, after, title, content),
    ensures
        ids_distinct(after),
        after.len() == before.len() + 1,
        details_of(after) == details_of(before).push((title, content)),
{
    let id = choose|id: Seq<char>| !has_id(before, id) && after == before.push((id, title, content));
    assert forall|i: int, j: int| 0 <= i < after.len() && 0 <= j < after.len() && i != j implies after[i].0 != after[j].0 by {
        if i == before.len() {
            assert(!(after[j].0 == id && 0 <= j < before.len() && before[j].0 == id));
        } else if j == before.len() {
            assert(!(after[i].0 == id && 0 <= i < before.len() && before[i].0 == id));
        }
    }
    assert(details_of(after) =~= details_of(before).push((title, content)));
}

/// After appends made one at a time to a seeded collection, each of which
/// succeeded, the collection holds the seed note followed by the appended
/// notes in order, and no two of them share an identifier.
pub proof fn lemma_appends(states: Seq<Seq<NoteV>>, items: Seq<(Seq<char>, Seq<char>)>)
    requires
        states.len() == items.len() + 1,
        is_seed(states[0]),
        forall|i: int|
            0 <= i < items.len() ==> appended(
                #[trigger] states[i],
                states[i + 1],
                items[i].0,
                items[i].1,
            ),
    ensures
        details_of(states.last()) == seq![(seed_text(), seed_text())] + items,
        ids_distinct(states.last()),
{
    lemma_appends_prefix(states, items, items.len() as int);
    assert(items.take(items.len() as int) =~= items);
}

proof fn lemma_appends_prefix(states: Seq<Seq<NoteV>>, items: Seq<(Seq<char>, Seq<char>)>, k: int)
    requires
        states.len() == items.len() + 1,
        0 <= k <= items.len(),
        is_seed(states[0]),
        forall|i: int|
            0 <= i < items.len() ==> appended(
                #[trigger] states[i],
                states[i + 1],
                items[i].0,
                items[i].1,
            ),
    ensures
        details_of(states[k]) == seq![(seed_text(), seed_text())] + items.take(k),
        ids_distinct(states[k]),
    decreases k,
{
    if k == 0 {
        assert(details_of(states[0]) =~= seq![(seed_text(), seed_text())] + items.take(0));
    } else {
        lemma_appends_prefix(states, items, k - 1);
        assert(appended(states[k - 1], states[k - 1 + 1], items[k - 1].0, items[k - 1].1));
        lemma_appended_keeps_ids_distinct(states[k - 1], states[k], items[k - 1].0, items[k - 1].1);
        assert(items.take(k) =~= items.take(k - 1).push(items[k - 1]));
        assert(details_of(states[k]) =~= seq![(seed_text(), seed_text())] + items.take(k));
    }
}

} // verus!
