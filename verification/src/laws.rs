//! What holds of the service when the store works as `store::answers` says.

use crate::error::ApiError;
use crate::handlers::{
    first_step, next_step, Pending, RequestView, StepView, StoreCommandView, StoreReplyView,
};
use crate::model::{CreateStudentDtoView, StudentView};
use crate::response::{
    BodyView, ResponseView, STATUS_BAD_REQUEST, STATUS_CREATED, STATUS_INTERNAL_SERVER_ERROR,
    STATUS_NOT_FOUND, STATUS_OK,
};
use crate::store::{holds, lists, serves, well_formed, Collection};
use crate::student_id::{decode_hex_id, encode_hex_id, is_hex_id, lemma_hex_round_trip, StudentId};
use vstd::prelude::*;

verus! {

/// A creation is answered with status 201 and the stored record: it has the
/// submitted fields and an identifier that no record had before, whose text
/// reads back as that identifier, and it is the one record that the
/// collection has gained.
pub proof fn lemma_create_returns_stored_record(
    c: Collection,
    dto: CreateStudentDtoView,
    response: ResponseView,
    after: Collection,
)
    requires
        serves(c, RequestView::Create(dto), response, after),
    ensures
        response.status == STATUS_CREATED,
        response.body matches BodyView::Student(student) && {
            &&& student.nama == dto.nama
            &&& student.nim == dto.nim
            &&& student.jurusan == dto.jurusan
            &&& student.id matches Some(id) && {
                &&& is_hex_id(encode_hex_id(id))
                &&& decode_hex_id(encode_hex_id(id)) == id
                &&& !c.contains_key(id)
                &&& after == c.insert(id, student)
            }
        },
{
    lemma_hex_round_trip(response.body->Student_0.id->0);
}

/// Whatever request is served, the collection stays well formed and no
/// record in it is changed: a creation adds one record and removes none, a
/// deletion removes one record at most and adds none, and a listing or a
/// lookup leaves the collection as it was.
pub proof fn lemma_serving_keeps_records(
    c: Collection,
    request: RequestView,
    response: ResponseView,
    after: Collection,
)
    requires
        well_formed(c),
        serves(c, request, response, after),
    ensures
        well_formed(after),
        forall|id: StudentId|
            c.contains_key(id) && after.contains_key(id) ==> #[trigger] after[id] == c[id],
        request is Create ==> c.submap_of(after) && after.dom().len() == c.dom().len() + 1,
        request is Delete ==> after.submap_of(c) && after.dom().len() + 1 >= c.dom().len(),
        request is List || request is Get ==> after == c,
{
    match request {
        RequestView::Create(dto) => {
            lemma_create_returns_stored_record(c, dto, response, after);
        },
        RequestView::Delete(raw) => {
            if !is_hex_id(raw) {
                assert(after == c);
            }
        },
        _ => {},
    }
}

/// A listing is always answered with status 200 and the whole collection,
/// in an order of the store's choosing; of an empty collection, with no
/// records. It leaves the collection as it was.
pub proof fn lemma_list_returns_collection(c: Collection, response: ResponseView, after: Collection)
    requires
        serves(c, RequestView::List, response, after),
    ensures
        response.status == STATUS_OK,
        response.body matches BodyView::Students(docs) && {
            &&& lists(c, docs)
            &&& c.dom().is_empty() ==> docs == Seq::<StudentView>::empty()
        },
        after == c,
{
    let docs = response.body->Students_0;
    if c.dom().is_empty() && docs.len() > 0 {
        assert(holds(c, docs[0]));
    }
}

/// The requests of `dtos`, served one after the other from the collection
/// `c`, are answered with `responses` and leave the collection `after`.
pub open spec fn serves_creations(
    c: Collection,
    dtos: Seq<CreateStudentDtoView>,
    responses: Seq<ResponseView>,
    after: Collection,
) -> bool
    decreases dtos.len(),
{
    if dtos.len() == 0 {
        responses.len() == 0 && after == c
    } else {
        &&& responses.len() == dtos.len()
        &&& exists|mid: Collection|
            #[trigger] serves(c, RequestView::Create(dtos.first()), responses.first(), mid)
                && serves_creations(mid, dtos.drop_first(), responses.drop_first(), after)
    }
}

/// After any number of creations, each created record is in the collection,
/// and the records that were there before are there still.
proof fn lemma_creations_stay(
    c: Collection,
    dtos: Seq<CreateStudentDtoView>,
    responses: Seq<ResponseView>,
    after: Collection,
)
    requires
        serves_creations(c, dtos, responses, after),
    ensures
        responses.len() == dtos.len(),
        forall|doc: StudentView| holds(c, doc) ==> holds(after, doc),
        forall|i: int|
            0 <= i < dtos.len() ==> {
                &&& (#[trigger] responses[i]).status == STATUS_CREATED
                &&& responses[i].body matches BodyView::Student(student) && {
                    &&& student.nama == dtos[i].nama
                    &&& student.nim == dtos[i].nim
                    &&& student.jurusan == dtos[i].jurusan
                    &&& holds(after, student)
                }
            },
    decreases dtos.len(),
{
    if dtos.len() > 0 {
        let mid = choose|mid: Collection|
            #[trigger] serves(c, RequestView::Create(dtos.first()), responses.first(), mid)
                && serves_creations(mid, dtos.drop_first(), responses.drop_first(), after);
        lemma_create_returns_stored_record(c, dtos.first(), responses.first(), mid);
        lemma_creations_stay(mid, dtos.drop_first(), responses.drop_first(), after);
        let first = responses.first().body->Student_0;
        assert(holds(mid, first));
        assert forall|doc: StudentView| holds(c, doc) implies holds(after, doc) by {
            assert(holds(mid, doc));
        }
        assert forall|i: int| 0 <= i < dtos.len() implies {
            &&& (#[trigger] responses[i]).status == STATUS_CREATED
            &&& responses[i].body matches BodyView::Student(student) && {
                &&& student.nama == dtos[i].nama
                &&& student.nim == dtos[i].nim
                &&& student.jurusan == dtos[i].jurusan
                &&& holds(after, student)
            }
        } by {
            if i > 0 {
                assert(responses[i] == responses.drop_first()[i - 1]);
                assert(dtos[i] == dtos.drop_first()[i - 1]);
            }
        }
    }
}

/// A listing that follows any number of creations has status 200 and holds
/// every one of the created records, each with the fields that were
/// submitted for it.
pub proof fn lemma_list_after_creations(
    c: Collection,
    dtos: Seq<CreateStudentDtoView>,
    responses: Seq<ResponseView>,
    mid: Collection,
    listing: ResponseView,
    after: Collection,
)
    requires
        serves_creations(c, dtos, responses, mid),
        serves(mid, RequestView::List, listing, after),
    ensures
        listing.status == STATUS_OK,
        responses.len() == dtos.len(),
        listing.body matches BodyView::Students(docs) && forall|i: int|
            0 <= i < dtos.len() ==> {
                &&& (#[trigger] responses[i]).status == STATUS_CREATED
                &&& responses[i].body matches BodyView::Student(student) && {
                    &&& student.nama == dtos[i].nama
                    &&& student.nim == dtos[i].nim
                    &&& student.jurusan == dtos[i].jurusan
                    &&& docs.contains(student)
                }
            },
{
    lemma_creations_stay(c, dtos, responses, mid);
    lemma_list_returns_collection(mid, listing, after);
}

/// A lookup of a student by the identifier that its creation returned is
/// answered with status 200 and the very record that the creation returned.
pub proof fn lemma_get_after_create(
    c: Collection,
    dto: CreateStudentDtoView,
    created: ResponseView,
    mid: Collection,
    id: StudentId,
    got: ResponseView,
    after: Collection,
)
    requires
        serves(c, RequestView::Create(dto), created, mid),
        created.body matches BodyView::Student(student) && student.id == Some(id),
        serves(mid, RequestView::Get(encode_hex_id(id)), got, after),
    ensures
        got.status == STATUS_OK,
        got.body == created.body,
        after == mid,
{
    lemma_create_returns_stored_record(c, dto, created, mid);
    lemma_hex_round_trip(id);
}

/// A lookup by a well-formed identifier that no record has is answered with
/// status 404.
pub proof fn lemma_get_absent_is_not_found(
    c: Collection,
    raw: Seq<char>,
    response: ResponseView,
    after: Collection,
)
    requires
        is_hex_id(raw),
        !c.contains_key(decode_hex_id(raw)),
        serves(c, RequestView::Get(raw), response, after),
    ensures
        response == ApiError::NotFound.spec_to_response(),
        response.status == STATUS_NOT_FOUND,
        after == c,
{
}

/// A lookup or a deletion by a text that is not an identifier is answered
/// with status 400, a client error, and the store is not asked.
pub proof fn lemma_malformed_id_is_client_error(
    c: Collection,
    raw: Seq<char>,
    response: ResponseView,
    after: Collection,
)
    requires
        !is_hex_id(raw),
        serves(c, RequestView::Get(raw), response, after) || serves(
            c,
            RequestView::Delete(raw),
            response,
            after,
        ),
    ensures
        first_step(RequestView::Get(raw)) == StepView::Done(response),
        first_step(RequestView::Delete(raw)) == StepView::Done(response),
        response == ApiError::BadRequest.spec_to_response(),
        response.status == STATUS_BAD_REQUEST,
        response.is_client_error(),
        after == c,
{
}

/// The deletion of a student by the identifier that its creation returned
/// is answered with status 200 and the confirming message; a lookup by that
/// identifier afterwards is answered with status 404.
pub proof fn lemma_delete_after_create(
    c: Collection,
    dto: CreateStudentDtoView,
    created: ResponseView,
    c1: Collection,
    id: StudentId,
    deleted: ResponseView,
    c2: Collection,
    got: ResponseView,
    c3: Collection,
)
    requires
        serves(c, RequestView::Create(dto), created, c1),
        created.body matches BodyView::Student(student) && student.id == Some(id),
        serves(c1, RequestView::Delete(encode_hex_id(id)), deleted, c2),
        serves(c2, RequestView::Get(encode_hex_id(id)), got, c3),
    ensures
        deleted == ResponseView::deleted(),
        deleted.status == STATUS_OK,
        c2 == c1.remove(id),
        got == ApiError::NotFound.spec_to_response(),
        got.status == STATUS_NOT_FOUND,
{
    lemma_create_returns_stored_record(c, dto, created, c1);
    lemma_hex_round_trip(id);
}

/// A deletion by a well-formed identifier that no record has is answered
/// with status 404 and leaves the collection as it was.
pub proof fn lemma_delete_absent_is_not_found(
    c: Collection,
    raw: Seq<char>,
    response: ResponseView,
    after: Collection,
)
    requires
        is_hex_id(raw),
        !c.contains_key(decode_hex_id(raw)),
        serves(c, RequestView::Delete(raw), response, after),
    ensures
        response == ApiError::NotFound.spec_to_response(),
        response.status == STATUS_NOT_FOUND,
        after == c,
{
    assert(c.remove(decode_hex_id(raw)) =~= c);
}

/// Whatever a first deletion was answered with, a second deletion by the
/// same identifier is answered with status 404.
pub proof fn lemma_delete_twice_is_not_found(
    c: Collection,
    raw: Seq<char>,
    first: ResponseView,
    mid: Collection,
    second: ResponseView,
    after: Collection,
)
    requires
        is_hex_id(raw),
        serves(c, RequestView::Delete(raw), first, mid),
        serves(mid, RequestView::Delete(raw), second, after),
    ensures
        second == ApiError::NotFound.spec_to_response(),
        second.status == STATUS_NOT_FOUND,
        after == mid,
{
    assert(mid.remove(decode_hex_id(raw)) =~= mid);
}

/// A failure that the store reports, at whatever point of an operation, is
/// answered with status 500 and a message of the service's own.
pub proof fn lemma_store_failure_is_server_error(pending: Pending)
    ensures
        next_step(pending, StoreReplyView::Failed) == StepView::Done(
            ApiError::StoreError.spec_to_response(),
        ),
        ApiError::StoreError.spec_to_response().status == STATUS_INTERNAL_SERVER_ERROR,
{
}

/// No operation asks the store more than twice: only a creation asks a
/// second time, to read the inserted record back by the identifier that the
/// insert returned, and whatever the store replies then, the response follows.
pub proof fn lemma_two_commands_at_most(
    pending: Pending,
    reply: StoreReplyView,
    again: StoreReplyView,
)
    ensures
        next_step(pending, reply) matches StepView::Call { command, pending: then } ==> {
            &&& pending == Pending::Insert
            &&& reply matches StoreReplyView::Inserted(id) && command == StoreCommandView::FindOne(
                id,
            )
            &&& then == Pending::Reread
            &&& next_step(then, again) is Done
        },
{
}

} // verus!
