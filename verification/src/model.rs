//! The student record and the body of a creation request.

use crate::student_id::StudentId;
use vstd::prelude::*;

verus! {

/// What a client submits to create a student. All three fields are required;
/// nothing else is asked of them.
#[derive(Clone, Debug, PartialEq, Eq)]
pub struct CreateStudentDto {
    pub nama: String,
    pub nim: String,
    pub jurusan: String,
}

pub struct CreateStudentDtoView {
    pub nama: Seq<char>,
    pub nim: Seq<char>,
    pub jurusan: Seq<char>,
}

impl View for CreateStudentDto {
    type V = CreateStudentDtoView;

    open spec fn view(&self) -> CreateStudentDtoView {
        CreateStudentDtoView { nama: self.nama@, nim: self.nim@, jurusan: self.jurusan@ }
    }
}

/// A student record. `id` is `None` until the store has assigned one.
#[derive(Clone, Debug, PartialEq, Eq)]
pub struct Student {
    pub id: Option<StudentId>,
    pub nama: String,
    pub nim: String,
    pub jurusan: String,
}

pub struct StudentView {
    pub id: Option<StudentId>,
    pub nama: Seq<char>,
    pub nim: Seq<char>,
    pub jurusan: Seq<char>,
}

impl View for Student {
    type V = StudentView;

    open spec fn view(&self) -> StudentView {
        StudentView { id: self.id, nama: self.nama@, nim: self.nim@, jurusan: self.jurusan@ }
    }
}

impl StudentView {
    /// The record made of the submitted fields, before the store has seen it.
    pub open spec fn unsaved(dto: CreateStudentDtoView) -> StudentView {
        StudentView { id: None, nama: dto.nama, nim: dto.nim, jurusan: dto.jurusan }
    }

    /// This record as the store keeps it under `id`.
    pub open spec fn saved_as(self, id: StudentId) -> StudentView {
        StudentView { id: Some(id), ..self }
    }
}

/// The records of `students`, in order.
pub open spec fn student_views(students: Seq<Student>) -> Seq<StudentView> {
    students.map_values(|s: Student| s@)
}

} // verus!
