//! The decisions the server makes around the store: the collection it starts
//! with, and what a submitted note leads to.
use crate::store::{
    add_post, appended, gen_notes, is_seed, no_drawn_length_ids, NoteFile, NoteV, StoreError,
};
use vstd::prelude::*;

verus! {

/// A note as the add-note form submits it.
pub struct SubmittedNote {
    pub title: String,
    pub content: String,
}

/// Where the browser is sent once a note was added: the listing.
pub open spec fn index_path() -> Seq<char> {
    "/"@
}

/// `out` is the collection that the server starts with when `stored` is what
/// it found on disk: the stored collection where there is one, else a seeded
/// one.
pub open spec fn started(stored: Option<Seq<NoteV>>, out: Seq<NoteV>) -> bool {
    match stored {
        Some(s) => out == s,
        None => is_seed(out),
    }
}

/// The collection the server starts with: the stored one where there is one,
/// else a new collection holding only the seed note.
pub fn rocket(stored: Option<NoteFile>) -> (r: NoteFile)
    ensures
        started(
            match stored {
                Some(f) => Some(f@),
                None => None,
            },
            r@,
        ),
        stored is None ==> r.wf(),
        stored matches Some(f) ==> (f.wf() ==> r.wf()),
{
    match stored {
        Some(f) => f,
        None => gen_notes(),
    }
}

/// Starting twice is starting once: once a collection is stored, starting
/// again keeps exactly that collection.
pub proof fn lemma_start_idempotent(stored: Option<Seq<NoteV>>, once: Seq<NoteV>, twice: Seq<NoteV>)
    requires
        started(stored, once),
        started(Some(once), twice),
    ensures
        twice == once,
{
}

/// Handles a submitted note: appends it to `notes` and answers with the path
/// to redirect to, the listing. Where the fresh identifier is already taken,
/// nothing changes and the error is returned; that cannot happen where no
/// stored identifier has the length of a drawn one, an empty store included.
pub fn create_note(notes: &mut NoteFile, user_input: SubmittedNote) -> (r: Result<String, StoreError>)
    ensures
        no_drawn_length_ids(old(notes)@) ==> r is Ok,
        old(notes)@.len() == 0 ==> r is Ok,
        r matches Ok(p) ==> p@ == index_path() && appended(
            old(notes)@,
            final(notes)@,
            user_input.title@,
            user_input.content@,
        ),
        r is Err ==> r == Err::<String, StoreError>(StoreError::DuplicateId) && final(notes)@ == old(
            notes,
        )@,
        old(notes).wf() ==> final(notes).wf(),
{
    let title = user_input.title;
    let content = user_input.content;
    match add_post(notes, title, content) {
        Ok(()) => Ok("/".to_owned()),
        Err(e) => Err(e),
    }
}

} // verus!
