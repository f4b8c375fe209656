//! A model of the collection that the commands address, and of a request
//! served against it.
//!
//! The model is the yardstick for the laws of this crate: a collection is a
//! finite map from identifiers to records, and a store that works answers
//! each command as `answers` says. Nothing here runs; the store that the
//! service talks to is outside this crate.

use crate::handlers::{
    first_step, next_step, RequestView, StepView, StoreCommandView, StoreReplyView,
};
use crate::model::StudentView;
use crate::response::ResponseView;
use crate::student_id::StudentId;
use vstd::prelude::*;

verus! {

/// The records of the collection, each under its identifier.
pub type Collection = Map<StudentId, StudentView>;

/// The collection is finite and every record carries the identifier that it
/// is filed under.
pub open spec fn well_formed(c: Collection) -> bool {
    &&& c.dom().finite()
    &&& forall|id: StudentId| c.contains_key(id) ==> (#[trigger] c[id]).id == Some(id)
}

/// `doc` is a record of the collection.
pub open spec fn holds(c: Collection, doc: StudentView) -> bool {
    doc.id matches Some(id) && c.contains_key(id) && c[id] == doc
}

/// `docs` is the whole collection in some order: every record once, and
/// nothing else.
pub open spec fn lists(c: Collection, docs: Seq<StudentView>) -> bool {
    &&& docs.no_duplicates()
    &&& forall|i: int| 0 <= i < docs.len() ==> holds(c, #[trigger] docs[i])
    &&& forall|id: StudentId| c.contains_key(id) ==> docs.contains(#[trigger] c[id])
}

/// A store that works answers `command` on the collection `c` with `reply`
/// and leaves the collection `after`.
///
/// An insert files the record under an identifier that was not in use (its
/// own, if it brings one) and returns that identifier. A search by identifier
/// returns the record filed under it, if there is one. A search for all
/// returns the whole collection in an order of the store's choosing. A delete
/// removes the record filed under the identifier and returns how many records
/// it removed, 1 or 0.
pub open spec fn answers(
    c: Collection,
    command: StoreCommandView,
    reply: StoreReplyView,
    after: Collection,
) -> bool {
    match command {
        StoreCommandView::InsertOne(doc) => {
            &&& reply matches StoreReplyView::Inserted(id)
            &&& doc.id is Some ==> doc.id == Some(id)
            &&& !c.contains_key(id)
            &&& after == c.insert(id, doc.saved_as(id))
        },
        StoreCommandView::FindAll => {
            &&& reply matches StoreReplyView::Listed(docs)
            &&& lists(c, docs)
            &&& after == c
        },
        StoreCommandView::FindOne(id) => {
            &&& reply == StoreReplyView::Found(
                if c.contains_key(id) {
                    Some(c[id])
                } else {
                    None
                },
            )
            &&& after == c
        },
        StoreCommandView::DeleteOne(id) => {
            &&& reply == StoreReplyView::Deleted(
                if c.contains_key(id) {
                    1u64
                } else {
                    0u64
                },
            )
            &&& after == c.remove(id)
        },
    }
}

/// From `step`, at most one more command leads to `response` and leaves the
/// collection `after`.
pub open spec fn completes(
    c: Collection,
    step: StepView,
    response: ResponseView,
    after: Collection,
) -> bool {
    match step {
        StepView::Done(r) => response == r && after == c,
        StepView::Call { command, pending } => exists|reply: StoreReplyView|
            #[trigger] answers(c, command, reply, after) && next_step(pending, reply)
                == StepView::Done(response),
    }
}

/// Served against a store that works and holds the collection `c`,
/// `request` is answered with `response` and the collection is `after`.
pub open spec fn serves(
    c: Collection,
    request: RequestView,
    response: ResponseView,
    after: Collection,
) -> bool {
    match first_step(request) {
        StepView::Done(r) => response == r && after == c,
        StepView::Call { command, pending } => exists|reply: StoreReplyView, mid: Collection|
            #[trigger] answers(c, command, reply, mid) && completes(
                mid,
                next_step(pending, reply),
                response,
                after,
            ),
    }
}

} // verus!
