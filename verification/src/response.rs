//! What the service answers: a status and a body.

use crate::model::{student_views, Student, StudentView};
use vstd::prelude::*;

verus! {

pub const STATUS_OK: u16 = 200;

pub const STATUS_CREATED: u16 = 201;

pub const STATUS_BAD_REQUEST: u16 = 400;

pub const STATUS_NOT_FOUND: u16 = 404;

pub const STATUS_INTERNAL_SERVER_ERROR: u16 = 500;

/// The message that confirms a deletion.
pub const DELETED_MESSAGE: &'static str = "Student deleted successfully";

/// The body of a response, before it is written as JSON: one record, a list
/// of records, or an object with a single `message` field.
#[derive(Clone, Debug, PartialEq, Eq)]
pub enum Body {
    Student(Student),
    Students(Vec<Student>),
    Message(String),
}

pub enum BodyView {
    Student(StudentView),
    Students(Seq<StudentView>),
    Message(Seq<char>),
}

impl View for Body {
    type V = BodyView;

    open spec fn view(&self) -> BodyView {
        match self {
            Body::Student(student) => BodyView::Student(student@),
            Body::Students(students) => BodyView::Students(student_views(students@)),
            Body::Message(text) => BodyView::Message(text@),
        }
    }
}

#[derive(Clone, Debug, PartialEq, Eq)]
pub struct Response {
    pub status: u16,
    pub body: Body,
}

pub struct ResponseView {
    pub status: u16,
    pub body: BodyView,
}

impl View for Response {
    type V = ResponseView;

    open spec fn view(&self) -> ResponseView {
        ResponseView { status: self.status, body: self.body@ }
    }
}

impl ResponseView {
    /// Status 201 with the stored record.
    pub open spec fn created(student: StudentView) -> ResponseView {
        ResponseView { status: STATUS_CREATED, body: BodyView::Student(student) }
    }

    /// Status 200 with one record.
    pub open spec fn found(student: StudentView) -> ResponseView {
        ResponseView { status: STATUS_OK, body: BodyView::Student(student) }
    }

    /// Status 200 with the records listed, which may be none.
    pub open spec fn listed(students: Seq<StudentView>) -> ResponseView {
        ResponseView { status: STATUS_OK, body: BodyView::Students(students) }
    }

    /// Status 200 with the message that confirms a deletion.
    pub open spec fn deleted() -> ResponseView {
        ResponseView { status: STATUS_OK, body: BodyView::Message(DELETED_MESSAGE@) }
    }

    pub open spec fn is_client_error(self) -> bool {
        400 <= self.status < 500
    }
}

} // verus!
