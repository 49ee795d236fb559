//! What the error pages say: the status of each kind of error, and the pool of
//! friendly messages that one is drawn from.
use rand::seq::SliceRandom;
use vstd::prelude::*;

verus! {

/// The kinds of error that have a page of their own.
#[derive(Clone, Copy, Debug, PartialEq, Eq, Structural)]
pub enum ErrorKind {
    NotFound,
    InternalError,
}

/// An error page before layout: its HTTP status and its message.
pub struct ErrorPage {
    pub status: u16,
    pub message: String,
}

/// The number of messages in each pool.
pub const POOL_SIZE: usize = 10;

/// The HTTP status of an error kind.
pub open spec fn status_of(kind: ErrorKind) -> u16 {
    match kind {
        ErrorKind::NotFound => 404,
        ErrorKind::InternalError => 500,
    }
}

/// The messages that a page of the given kind may show.
pub open spec fn pool_of(kind: ErrorKind) -> Seq<Seq<char>> {
    match kind {
        ErrorKind::NotFound => seq![
            "Oops! Looks like this page got stuck in the wrong place."@,
            "Sorry, we're a bit sticky-fingered and misplaced that page."@,
            "This page has gone rogue and escaped. We're working on finding it."@,
            "Uh oh, looks like this page fell off the grid."@,
            "This page has gone missing. We're working on finding it."@,
            "Looks like this note got lost in translation. We'll get it sorted ASAP."@,
            "This page seems to have gone on a solo adventure. We'll track it down soon!"@,
            "We apologize for this sticky situation. We're working on getting things back to normal."@,
            "Whoops! This page took a wrong turn somewhere. We'll redirect it shortly."@,
            "Sorry for the mess! This page got a little too attached to its own ideas."@,
        ],
        ErrorKind::InternalError => seq![
            "Looks like the notes got stuck together. We're carefully peeling them apart."@,
            "We accidentally knocked over our sticky note tower. We're rebuilding it now."@,
            "We accidentally knocked over our sticky note tower. We're rebuilding it now."@,
            "Our notes are in a bit of a jam. We're trying to unstick them."@,
            "The sticky notes got mixed up. We're sorting them out now."@,
            "Looks like we ran out of sticky notes. We're restocking ASAP."@,
            "The sticky notes are having a party and forgot to invite the server. We're crashing the party now."@,
            "The sticky notes got a little too sticky and caused a server malfunction. We're cleaning up the mess."@,
            "Our notes got lost in a sea of yellow. We're trying to find the right one."@,
            "The sticky notes are rebelling against the server. We're negotiating a truce."@,
        ],
    }
}

/// Relies on rand's SliceRandom::choose over rand::thread_rng: `None` for an
/// empty slice, else one of its elements.
#[verifier::external_body]
fn choose_message(pool: &Vec<String>) -> (r: Option<&String>)
    ensures
        r is None <==> pool@.len() == 0,
        r matches Some(m) ==> exists|i: int| 0 <= i < pool@.len() && pool@[i] == *m,
{
    pool.choose(&mut rand::thread_rng())
}

/// The HTTP status of an error kind: 404 for a missing page, 500 for an
/// internal failure.
pub fn status_code(kind: ErrorKind) -> (r: u16)
    ensures
        r == status_of(kind),
{
    match kind {
        ErrorKind::NotFound => 404,
        ErrorKind::InternalError => 500,
    }
}

/// The pool of messages of an error kind.
pub fn message_pool(kind: ErrorKind) -> (r: Vec<String>)
    ensures
        r@.len() == POOL_SIZE,
        r@.map_values(|m: String| m@) == pool_of(kind),
{
    let r = match kind {
        ErrorKind::NotFound => vec![
            "Oops! Looks like this page got stuck in the wrong place.".to_owned(),
            "Sorry, we're a bit sticky-fingered and misplaced that page.".to_owned(),
            "This page has gone rogue and escaped. We're working on finding it.".to_owned(),
            "Uh oh, looks like this page fell off the grid.".to_owned(),
            "This page has gone missing. We're working on finding it.".to_owned(),
            "Looks like this note got lost in translation. We'll get it sorted ASAP.".to_owned(),
            "This page seems to have gone on a solo adventure. We'll track it down soon!".to_owned(),
            "We apologize for this sticky situation. We're working on getting things back to normal.".to_owned(),
            "Whoops! This page took a wrong turn somewhere. We'll redirect it shortly.".to_owned(),
            "Sorry for the mess! This page got a little too attached to its own ideas.".to_owned(),
        ],
        ErrorKind::InternalError => vec![
            "Looks like the notes got stuck together. We're carefully peeling them apart.".to_owned(),
            "We accidentally knocked over our sticky note tower. We're rebuilding it now.".to_owned(),
            "We accidentally knocked over our sticky note tower. We're rebuilding it now.".to_owned(),
            "Our notes are in a bit of a jam. We're trying to unstick them.".to_owned(),
            "The sticky notes got mixed up. We're sorting them out now.".to_owned(),
            "Looks like we ran out of sticky notes. We're restocking ASAP.".to_owned(),
            "The sticky notes are having a party and forgot to invite the server. We're crashing the party now.".to_owned(),
            "The sticky notes got a little too sticky and caused a server malfunction. We're cleaning up the mess.".to_owned(),
            "Our notes got lost in a sea of yellow. We're trying to find the right one.".to_owned(),
            "The sticky notes are rebelling against the server. We're negotiating a truce.".to_owned(),
        ],
    };
    assert(r@.map_values(|m: String| m@) =~= pool_of(kind));
    r
}

/// Every message of every pool is non-empty.
pub proof fn lemma_pool_messages_nonempty(kind: ErrorKind)
    ensures
        pool_of(kind).len() == POOL_SIZE,
        forall|i: int| 0 <= i < POOL_SIZE ==> #[trigger] pool_of(kind)[i].len() > 0,
{
        reveal_strlit("Oops! Looks like this page got stuck in the wrong place.");
        reveal_strlit("Sorry, we're a bit sticky-fingered and misplaced that page.");
        reveal_strlit("This page has gone rogue and escaped. We're working on finding it.");
        reveal_strlit("Uh oh, looks like this page fell off the grid.");
        reveal_strlit("This page has gone missing. We're working on finding it.");
        reveal_strlit("Looks like this note got lost in translation. We'll get it sorted ASAP.");
        reveal_strlit("This page seems to have gone on a solo adventure. We'll track it down soon!");
        reveal_strlit("We apologize for this sticky situation. We're working on getting things back to normal.");
        reveal_strlit("Whoops! This page took a wrong turn somewhere. We'll redirect it shortly.");
        reveal_strlit("Sorry for the mess! This page got a little too attached to its own ideas.");
        reveal_strlit("Looks like the notes got stuck together. We're carefully peeling them apart.");
        reveal_strlit("We accidentally knocked over our sticky note tower. We're rebuilding it now.");
        reveal_strlit("We accidentally knocked over our sticky note tower. We're rebuilding it now.");
        reveal_strlit("Our notes are in a bit of a jam. We're trying to unstick them.");
        reveal_strlit("The sticky notes got mixed up. We're sorting them out now.");
        reveal_strlit("Looks like we ran out of sticky notes. We're restocking ASAP.");
        reveal_strlit("The sticky notes are having a party and forgot to invite the server. We're crashing the party now.");
        reveal_strlit("The sticky notes got a little too sticky and caused a server malfunction. We're cleaning up the mess.");
        reveal_strlit("Our notes got lost in a sea of yellow. We're trying to find the right one.");
        reveal_strlit("The sticky notes are rebelling against the server. We're negotiating a truce.");
}

/// The error page of the given kind that shows message number `pick % 10` of
/// its pool; `pick` is where the randomness comes in.
pub fn error_page_at(kind: ErrorKind, pick: usize) -> (r: ErrorPage)
    ensures
        r.status == status_of(kind),
        r.message@ == pool_of(kind)[(pick % POOL_SIZE) as int],
        r.message@.len() > 0,
{
    let pool = message_pool(kind);
    let i = pick % POOL_SIZE;
    proof {
        lemma_pool_messages_nonempty(kind);
        assert(pool@.map_values(|m: String| m@)[i as int] == pool@[i as int]@);
    }
    ErrorPage { status: status_code(kind), message: pool[i].clone() }
}

/// The error page of the given kind, with a message drawn at random from its
/// pool: the status matches the kind, and the message is one of the pool's
/// and never empty.
pub fn error_page(kind: ErrorKind) -> (r: ErrorPage)
    ensures
        r.status == status_of(kind),
        exists|i: int| 0 <= i < POOL_SIZE && r.message@ == pool_of(kind)[i],
        r.message@.len() > 0,
{
    let pool = message_pool(kind);
    proof {
        lemma_pool_messages_nonempty(kind);
    }
    match choose_message(&pool) {
        Some(m) => {
            let ghost i = choose|i: int| 0 <= i < pool@.len() && pool@[i] == *m;
            assert(pool@.map_values(|s: String| s@)[i] == pool@[i]@);
            ErrorPage { status: status_code(kind), message: m.clone() }
        },
        None => error_page_at(kind, 0),
    }
}

} // verus!
