//! The four operations on students, each as an exchange with the store.
//!
//! An operation never touches the store itself. It says which command the
//! store is to run and what it is waiting for; whoever runs the command hands
//! the reply to `resume`, which either asks for one more command or gives the
//! response. No operation takes more than two commands.

use crate::error::ApiError;
use crate::model::{student_views, CreateStudentDto, CreateStudentDtoView, Student, StudentView};
use crate::response::{Body, Response, ResponseView, DELETED_MESSAGE, STATUS_CREATED, STATUS_OK};
use crate::student_id::{decode_hex_id, is_hex_id, StudentId};
use vstd::prelude::*;

verus! {

/// The collection that every command addresses.
pub const COLLECTION: &'static str = "students";

/// A request, after the transport has taken it apart. The identifier of
/// `Get` and `Delete` is the path segment as the client wrote it.
#[derive(Clone, Debug, PartialEq, Eq)]
pub enum Request {
    Create(CreateStudentDto),
    List,
    Get(String),
    Delete(String),
}

pub enum RequestView {
    Create(CreateStudentDtoView),
    List,
    Get(Seq<char>),
    Delete(Seq<char>),
}

impl View for Request {
    type V = RequestView;

    open spec fn view(&self) -> RequestView {
        match self {
            Request::Create(dto) => RequestView::Create(dto@),
            Request::List => RequestView::List,
            Request::Get(raw) => RequestView::Get(raw@),
            Request::Delete(raw) => RequestView::Delete(raw@),
        }
    }
}

/// One command for the store.
#[derive(Clone, Debug, PartialEq, Eq)]
pub enum StoreCommand {
    /// Insert this record; the store assigns the identifier.
    InsertOne(Student),
    /// Find every record, in whatever order the store yields them.
    FindAll,
    /// Find the record with this identifier.
    FindOne(StudentId),
    /// Delete at most one record with this identifier.
    DeleteOne(StudentId),
}

pub enum StoreCommandView {
    InsertOne(StudentView),
    FindAll,
    FindOne(StudentId),
    DeleteOne(StudentId),
}

impl View for StoreCommand {
    type V = StoreCommandView;

    open spec fn view(&self) -> StoreCommandView {
        match self {
            StoreCommand::InsertOne(student) => StoreCommandView::InsertOne(student@),
            StoreCommand::FindAll => StoreCommandView::FindAll,
            StoreCommand::FindOne(id) => StoreCommandView::FindOne(*id),
            StoreCommand::DeleteOne(id) => StoreCommandView::DeleteOne(*id),
        }
    }
}

/// What the store answered.
#[derive(Clone, Debug, PartialEq, Eq)]
pub enum StoreReply {
    /// The identifier that an insert assigned.
    Inserted(StudentId),
    /// The record that a search by identifier found, if any.
    Found(Option<Student>),
    /// The records that a search for all found.
    Listed(Vec<Student>),
    /// How many records a delete removed.
    Deleted(u64),
    /// The store reported a failure.
    Failed,
}

pub enum StoreReplyView {
    Inserted(StudentId),
    Found(Option<StudentView>),
    Listed(Seq<StudentView>),
    Deleted(u64),
    Failed,
}

impl View for StoreReply {
    type V = StoreReplyView;

    open spec fn view(&self) -> StoreReplyView {
        match self {
            StoreReply::Inserted(id) => StoreReplyView::Inserted(*id),
            StoreReply::Found(Some(student)) => StoreReplyView::Found(Some(student@)),
            StoreReply::Found(None) => StoreReplyView::Found(None),
            StoreReply::Listed(students) => StoreReplyView::Listed(student_views(students@)),
            StoreReply::Deleted(count) => StoreReplyView::Deleted(*count),
            StoreReply::Failed => StoreReplyView::Failed,
        }
    }
}

/// What an operation is waiting for while the store runs its command.
#[derive(Clone, Copy, Debug, PartialEq, Eq, Structural)]
pub enum Pending {
    /// A creation waits for the identifier of the inserted record.
    Insert,
    /// A creation waits for the inserted record, read back by its identifier.
    Reread,
    /// A listing waits for the records.
    List,
    /// A lookup waits for the record.
    Get,
    /// A deletion waits for the count of removed records.
    Delete,
}

/// Where an operation stands: it needs the store to run a command, or it has
/// its response.
#[derive(Clone, Debug, PartialEq, Eq)]
pub enum Step {
    Call { command: StoreCommand, pending: Pending },
    Done(Response),
}

pub enum StepView {
    Call { command: StoreCommandView, pending: Pending },
    Done(ResponseView),
}

impl View for Step {
    type V = StepView;

    open spec fn view(&self) -> StepView {
        match self {
            Step::Call { command, pending } => StepView::Call {
                command: command@,
                pending: *pending,
            },
            Step::Done(response) => StepView::Done(response@),
        }
    }
}

/// The step that opens each request. A lookup or a deletion whose identifier
/// is not twenty-four hexadecimal digits is a malformed request, and has its
/// response at once.
pub open spec fn first_step(request: RequestView) -> StepView {
    match request {
        RequestView::Create(dto) => StepView::Call {
            command: StoreCommandView::InsertOne(StudentView::unsaved(dto)),
            pending: Pending::Insert,
        },
        RequestView::List => StepView::Call {
            command: StoreCommandView::FindAll,
            pending: Pending::List,
        },
        RequestView::Get(raw) => if is_hex_id(raw) {
            StepView::Call {
                command: StoreCommandView::FindOne(decode_hex_id(raw)),
                pending: Pending::Get,
            }
        } else {
            StepView::Done(ApiError::BadRequest.spec_to_response())
        },
        RequestView::Delete(raw) => if is_hex_id(raw) {
            StepView::Call {
                command: StoreCommandView::DeleteOne(decode_hex_id(raw)),
                pending: Pending::Delete,
            }
        } else {
            StepView::Done(ApiError::BadRequest.spec_to_response())
        },
    }
}

/// What a reply leads to, failures not yet turned into responses.
///
/// A creation reads the inserted record back by the identifier that the
/// insert returned, and answers 201 with what it read. A lookup answers 200
/// with the record. A listing answers 200 with the records in the order of
/// the reply, also when there are none. A deletion answers 200 with the
/// confirming message when the store removed a record. A search that found
/// nothing, or a delete that removed nothing, is `NotFound`. A failure that
/// the store reported is `StoreError`, and so is a reply that does not answer
/// the command that was pending.
pub open spec fn outcome(pending: Pending, reply: StoreReplyView) -> Result<StepView, ApiError> {
    match (pending, reply) {
        (Pending::Insert, StoreReplyView::Inserted(id)) => Ok(
            StepView::Call { command: StoreCommandView::FindOne(id), pending: Pending::Reread },
        ),
        (Pending::Reread, StoreReplyView::Found(Some(student))) => Ok(
            StepView::Done(ResponseView::created(student)),
        ),
        (Pending::Reread, StoreReplyView::Found(None)) => Err(ApiError::NotFound),
        (Pending::List, StoreReplyView::Listed(students)) => Ok(
            StepView::Done(ResponseView::listed(students)),
        ),
        (Pending::Get, StoreReplyView::Found(Some(student))) => Ok(
            StepView::Done(ResponseView::found(student)),
        ),
        (Pending::Get, StoreReplyView::Found(None)) => Err(ApiError::NotFound),
        (Pending::Delete, StoreReplyView::Deleted(count)) => if count == 0 {
            Err(ApiError::NotFound)
        } else {
            Ok(StepView::Done(ResponseView::deleted()))
        },
        _ => Err(ApiError::StoreError),
    }
}

/// The step that follows a reply: `outcome`, with each failure as its response.
pub open spec fn next_step(pending: Pending, reply: StoreReplyView) -> StepView {
    match outcome(pending, reply) {
        Ok(step) => step,
        Err(error) => StepView::Done(error.spec_to_response()),
    }
}

/// Opens the creation of a student: the record to insert has the submitted
/// fields and no identifier.
pub fn create_student(dto: CreateStudentDto) -> (step: Step)
    ensures
        step@ == first_step(RequestView::Create(dto@)),
{
    let student = Student { id: None, nama: dto.nama, nim: dto.nim, jurusan: dto.jurusan };
    Step::Call { command: StoreCommand::InsertOne(student), pending: Pending::Insert }
}

/// Opens the listing of all students.
pub fn get_all_students() -> (step: Step)
    ensures
        step@ == first_step(RequestView::List),
{
    Step::Call { command: StoreCommand::FindAll, pending: Pending::List }
}

/// Opens the lookup of the student with identifier `id`.
pub fn get_student(id: StudentId) -> (step: Step)
    ensures
        step@ == (StepView::Call { command: StoreCommandView::FindOne(id), pending: Pending::Get }),
{
    Step::Call { command: StoreCommand::FindOne(id), pending: Pending::Get }
}

/// Opens the deletion of the student with identifier `id`.
pub fn delete_student(id: StudentId) -> (step: Step)
    ensures
        step@ == (StepView::Call {
            command: StoreCommandView::DeleteOne(id),
            pending: Pending::Delete,
        }),
{
    Step::Call { command: StoreCommand::DeleteOne(id), pending: Pending::Delete }
}

/// Opens a request. An identifier that is not twenty-four hexadecimal digits
/// is answered at once as a malformed request; the store is not asked.
pub fn start(request: Request) -> (step: Step)
    ensures
        step@ == first_step(request@),
{
    match request {
        Request::Create(dto) => create_student(dto),
        Request::List => get_all_students(),
        Request::Get(raw) => match StudentId::parse_str(raw.as_str()) {
            Ok(id) => get_student(id),
            Err(error) => Step::Done(error.to_response()),
        },
        Request::Delete(raw) => match StudentId::parse_str(raw.as_str()) {
            Ok(id) => delete_student(id),
            Err(error) => Step::Done(error.to_response()),
        },
    }
}

/// Takes the store's reply to the pending command and gives the next step.
pub fn resume(pending: Pending, reply: StoreReply) -> (step: Step)
    ensures
        step@ == next_step(pending, reply@),
{
    let result: Result<Step, ApiError> = match (pending, reply) {
        (Pending::Insert, StoreReply::Inserted(id)) => Ok(
            Step::Call { command: StoreCommand::FindOne(id), pending: Pending::Reread },
        ),
        (Pending::Reread, StoreReply::Found(Some(student))) => Ok(
            Step::Done(Response { status: STATUS_CREATED, body: Body::Student(student) }),
        ),
        (Pending::Reread, StoreReply::Found(None)) => Err(ApiError::NotFound),
        (Pending::List, StoreReply::Listed(students)) => Ok(
            Step::Done(Response { status: STATUS_OK, body: Body::Students(students) }),
        ),
        (Pending::Get, StoreReply::Found(Some(student))) => Ok(
            Step::Done(Response { status: STATUS_OK, body: Body::Student(student) }),
        ),
        (Pending::Get, StoreReply::Found(None)) => Err(ApiError::NotFound),
        (Pending::Delete, StoreReply::Deleted(count)) => if count == 0 {
            Err(ApiError::NotFound)
        } else {
            Ok(
                Step::Done(
                    Response { status: STATUS_OK, body: Body::Message(DELETED_MESSAGE.to_owned()) },
                ),
            )
        },
        _ => Err(ApiError::StoreError),
    };
    match result {
        Ok(step) => step,
        Err(error) => Step::Done(error.to_response()),
    }
}

} // verus!
