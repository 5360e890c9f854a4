//! What the library asks of the store and what the store answers.
//!
//! A [`Statement`] is one parameterised SQL statement as a plain value: its
//! text with `?` placeholders and the values bound to them, in order. The
//! store answers a fetching statement with rows, a writing one with a short
//! diagnostic text, and either kind with a [`StoreFailure`] when it cannot
//! carry the statement out.

use crate::models::course::{Course, CourseView, CreateCourse, CreateCourseView};
use crate::models::teacher::{CreateTeacher, CreateTeacherView, Teacher, TeacherView};
use vstd::prelude::*;

verus! {

/// A failure of the store, as the message that the driver gives for it.
#[derive(Debug, Clone, PartialEq, Eq)]
pub struct StoreFailure {
    pub message: String,
}

/// The mathematical form of [`StoreFailure`].
pub struct StoreFailureView {
    pub message: Seq<char>,
}

impl View for StoreFailure {
    type V = StoreFailureView;

    open spec fn view(&self) -> StoreFailureView {
        StoreFailureView { message: self.message@ }
    }
}

impl DeepView for StoreFailure {
    type V = StoreFailureView;

    open spec fn deep_view(&self) -> StoreFailureView {
        self@
    }
}

/// A reply or a result in its mathematical form: the view of what came, or
/// the view of the failure.
pub open spec fn outcome<T: DeepView, E: DeepView>(result: Result<T, E>) -> Result<T::V, E::V> {
    match result {
        Ok(value) => Ok(value.deep_view()),
        Err(error) => Err(error.deep_view()),
    }
}

/// A value bound to a placeholder.
#[derive(Debug, Clone, PartialEq, Eq)]
pub enum Param {
    Int(i32),
    Text(String),
    Null,
}

/// The mathematical form of [`Param`].
pub enum ParamView {
    Int(i32),
    Text(Seq<char>),
    Null,
}

impl View for Param {
    type V = ParamView;

    open spec fn view(&self) -> ParamView {
        match self {
            Param::Int(number) => ParamView::Int(*number),
            Param::Text(text) => ParamView::Text(text@),
            Param::Null => ParamView::Null,
        }
    }
}

impl DeepView for Param {
    type V = ParamView;

    open spec fn deep_view(&self) -> ParamView {
        self@
    }
}

/// The binding of a text column that may be null.
pub open spec fn nullable_text(text: Option<Seq<char>>) -> ParamView {
    match text {
        Some(text) => ParamView::Text(text),
        None => ParamView::Null,
    }
}

/// The binding of a number column that may be null.
pub open spec fn nullable_int(number: Option<i32>) -> ParamView {
    match number {
        Some(number) => ParamView::Int(number),
        None => ParamView::Null,
    }
}

fn bind_text(text: &String) -> (param: Param)
    ensures
        param@ == ParamView::Text(text@),
{
    Param::Text(text.clone())
}

fn bind_nullable_text(text: &Option<String>) -> (param: Param)
    ensures
        param@ == nullable_text(text.deep_view()),
{
    match text {
        Some(text) => Param::Text(text.clone()),
        None => Param::Null,
    }
}

fn bind_nullable_int(number: &Option<i32>) -> (param: Param)
    ensures
        param@ == nullable_int(*number),
{
    match number {
        Some(number) => Param::Int(*number),
        None => Param::Null,
    }
}

/// One statement that the library asks the store to run.
#[derive(Debug, Clone, PartialEq, Eq)]
pub enum Statement {
    /// All teachers, in the store's own order.
    ListTeachers,
    /// The teacher with this id.
    FindTeacher { id: i32 },
    /// A new teacher; the store assigns the id.
    InsertTeacher(CreateTeacher),
    /// The teacher with the greatest id.
    LastTeacher,
    /// Writes every column of the teacher with this id.
    UpdateTeacher(Teacher),
    /// Removes the teacher with this id, if there is one.
    DeleteTeacher { id: i32 },
    /// All courses of one teacher, in the store's own order.
    ListCourses { teacher_id: i32 },
    /// The course with this id, if it belongs to this teacher.
    FindCourse { teacher_id: i32, id: i32 },
    /// A new course; the store assigns the id.
    InsertCourse(CreateCourse),
    /// The course with the greatest id among those of this teacher.
    LastCourse { teacher_id: i32 },
    /// Writes every column but the keys of the course with this id, if it
    /// belongs to this teacher.
    UpdateCourse(Course),
    /// Removes the course with this id, if it belongs to this teacher.
    DeleteCourse { teacher_id: i32, id: i32 },
}

/// The mathematical form of [`Statement`].
pub enum StatementView {
    ListTeachers,
    FindTeacher { id: i32 },
    InsertTeacher(CreateTeacherView),
    LastTeacher,
    UpdateTeacher(TeacherView),
    DeleteTeacher { id: i32 },
    ListCourses { teacher_id: i32 },
    FindCourse { teacher_id: i32, id: i32 },
    InsertCourse(CreateCourseView),
    LastCourse { teacher_id: i32 },
    UpdateCourse(CourseView),
    DeleteCourse { teacher_id: i32, id: i32 },
}

impl View for Statement {
    type V = StatementView;

    open spec fn view(&self) -> StatementView {
        match self {
            Statement::ListTeachers => StatementView::ListTeachers,
            Statement::FindTeacher { id } => StatementView::FindTeacher { id: *id },
            Statement::InsertTeacher(teacher) => StatementView::InsertTeacher(teacher@),
            Statement::LastTeacher => StatementView::LastTeacher,
            Statement::UpdateTeacher(teacher) => StatementView::UpdateTeacher(teacher@),
            Statement::DeleteTeacher { id } => StatementView::DeleteTeacher { id: *id },
            Statement::ListCourses { teacher_id } => StatementView::ListCourses {
                teacher_id: *teacher_id,
            },
            Statement::FindCourse { teacher_id, id } => StatementView::FindCourse {
                teacher_id: *teacher_id,
                id: *id,
            },
            Statement::InsertCourse(course) => StatementView::InsertCourse(course@),
            Statement::LastCourse { teacher_id } => StatementView::LastCourse {
                teacher_id: *teacher_id,
            },
            Statement::UpdateCourse(course) => StatementView::UpdateCourse(course@),
            Statement::DeleteCourse { teacher_id, id } => StatementView::DeleteCourse {
                teacher_id: *teacher_id,
                id: *id,
            },
        }
    }
}

impl StatementView {
    /// The text of the statement, with a `?` for each bound value.
    pub open spec fn sql(self) -> Seq<char> {
        match self {
            StatementView::ListTeachers => "SELECT * FROM teacher"@,
            StatementView::FindTeacher { .. } => "SELECT * FROM teacher WHERE id=?"@,
            StatementView::InsertTeacher(_) =>
                "INSERT INTO teacher (name,picture_url,profile) VALUE (?,?,?)"@,
            StatementView::LastTeacher => "SELECT * FROM teacher ORDER BY id DESC LIMIT 1"@,
            StatementView::UpdateTeacher(_) =>
                "UPDATE teacher SET name=?,picture_url=?,profile=? WHERE id=?"@,
            StatementView::DeleteTeacher { .. } => "DELETE FROM teacher WHERE id=?"@,
            StatementView::ListCourses { .. } => "SELECT * FROM course WHERE teacher_id=?"@,
            StatementView::FindCourse { .. } =>
                "SELECT * FROM course WHERE teacher_id=? AND id=?"@,
            StatementView::InsertCourse(_) =>
                "INSERT INTO course (teacher_id,name,description,format,structure,duration,price,language,level) VALUES (?,?,?,?,?,?,?,?,?)"@,
            StatementView::LastCourse { .. } =>
                "SELECT * FROM course WHERE teacher_id=? ORDER BY id DESC LIMIT 1"@,
            StatementView::UpdateCourse(_) =>
                "UPDATE course SET name=?,description=?,format=?,structure=?,duration=?,price=?,language=?,level=? WHERE teacher_id=? AND id=?"@,
            StatementView::DeleteCourse { .. } => "DELETE FROM course WHERE teacher_id=? AND id=?"@,
        }
    }

    /// The values bound to the placeholders, in the order of the text.
    pub open spec fn params(self) -> Seq<ParamView> {
        match self {
            StatementView::ListTeachers => seq![],
            StatementView::FindTeacher { id } => seq![ParamView::Int(id)],
            StatementView::InsertTeacher(teacher) => seq![
                ParamView::Text(teacher.name),
                ParamView::Text(teacher.picture_url),
                ParamView::Text(teacher.profile),
            ],
            StatementView::LastTeacher => seq![],
            StatementView::UpdateTeacher(teacher) => seq![
                ParamView::Text(teacher.name),
                ParamView::Text(teacher.picture_url),
                ParamView::Text(teacher.profile),
                ParamView::Int(teacher.id),
            ],
            StatementView::DeleteTeacher { id } => seq![ParamView::Int(id)],
            StatementView::ListCourses { teacher_id } => seq![ParamView::Int(teacher_id)],
            StatementView::FindCourse { teacher_id, id } => seq![
                ParamView::Int(teacher_id),
                ParamView::Int(id),
            ],
            StatementView::InsertCourse(course) => seq![
                ParamView::Int(course.teacher_id),
                ParamView::Text(course.name),
                nullable_text(course.description),
                nullable_text(course.format),
                nullable_text(course.structure),
                nullable_text(course.duration),
                nullable_int(course.price),
                nullable_text(course.language),
                nullable_text(course.level),
            ],
            StatementView::LastCourse { teacher_id } => seq![ParamView::Int(teacher_id)],
            StatementView::UpdateCourse(course) => seq![
                ParamView::Text(course.name),
                nullable_text(course.description),
                nullable_text(course.format),
                nullable_text(course.structure),
                nullable_text(course.duration),
                nullable_int(course.price),
                nullable_text(course.language),
                nullable_text(course.level),
                ParamView::Int(course.teacher_id),
                ParamView::Int(course.id),
            ],
            StatementView::DeleteCourse { teacher_id, id } => seq![
                ParamView::Int(teacher_id),
                ParamView::Int(id),
            ],
        }
    }
}

impl Statement {
    /// The text of the statement, with a `?` for each bound value. No
    /// value is ever written into the text.
    pub fn sql(&self) -> (text: &'static str)
        ensures
            text@ == self@.sql(),
    {
        match self {
            Statement::ListTeachers => "SELECT * FROM teacher",
            Statement::FindTeacher { .. } => "SELECT * FROM teacher WHERE id=?",
            Statement::InsertTeacher(_) =>
                "INSERT INTO teacher (name,picture_url,profile) VALUE (?,?,?)",
            Statement::LastTeacher => "SELECT * FROM teacher ORDER BY id DESC LIMIT 1",
            Statement::UpdateTeacher(_) =>
                "UPDATE teacher SET name=?,picture_url=?,profile=? WHERE id=?",
            Statement::DeleteTeacher { .. } => "DELETE FROM teacher WHERE id=?",
            Statement::ListCourses { .. } => "SELECT * FROM course WHERE teacher_id=?",
            Statement::FindCourse { .. } => "SELECT * FROM course WHERE teacher_id=? AND id=?",
            Statement::InsertCourse(_) =>
                "INSERT INTO course (teacher_id,name,description,format,structure,duration,price,language,level) VALUES (?,?,?,?,?,?,?,?,?)",
            Statement::LastCourse { .. } =>
                "SELECT * FROM course WHERE teacher_id=? ORDER BY id DESC LIMIT 1",
            Statement::UpdateCourse(_) =>
                "UPDATE course SET name=?,description=?,format=?,structure=?,duration=?,price=?,language=?,level=? WHERE teacher_id=? AND id=?",
            Statement::DeleteCourse { .. } => "DELETE FROM course WHERE teacher_id=? AND id=?",
        }
    }

    /// The values bound to the placeholders, in the order of the text.
    pub fn params(&self) -> (params: Vec<Param>)
        ensures
            params.deep_view() == self@.params(),
    {
        let mut params: Vec<Param> = Vec::new();
        match self {
            Statement::ListTeachers => {},
            Statement::FindTeacher { id } => {
                params.push(Param::Int(*id));
            },
            Statement::InsertTeacher(teacher) => {
                params.push(bind_text(&teacher.name));
                params.push(bind_text(&teacher.picture_url));
                params.push(bind_text(&teacher.profile));
            },
            Statement::LastTeacher => {},
            Statement::UpdateTeacher(teacher) => {
                params.push(bind_text(&teacher.name));
                params.push(bind_text(&teacher.picture_url));
                params.push(bind_text(&teacher.profile));
                params.push(Param::Int(teacher.id));
            },
            Statement::DeleteTeacher { id } => {
                params.push(Param::Int(*id));
            },
            Statement::ListCourses { teacher_id } => {
                params.push(Param::Int(*teacher_id));
            },
            Statement::FindCourse { teacher_id, id } => {
                params.push(Param::Int(*teacher_id));
                params.push(Param::Int(*id));
            },
            Statement::InsertCourse(course) => {
                params.push(Param::Int(course.teacher_id));
                params.push(bind_text(&course.name));
                params.push(bind_nullable_text(&course.description));
                params.push(bind_nullable_text(&course.format));
                params.push(bind_nullable_text(&course.structure));
                params.push(bind_nullable_text(&course.duration));
                params.push(bind_nullable_int(&course.price));
                params.push(bind_nullable_text(&course.language));
                params.push(bind_nullable_text(&course.level));
            },
            Statement::LastCourse { teacher_id } => {
                params.push(Param::Int(*teacher_id));
            },
            Statement::UpdateCourse(course) => {
                params.push(bind_text(&course.name));
                params.push(bind_nullable_text(&course.description));
                params.push(bind_nullable_text(&course.format));
                params.push(bind_nullable_text(&course.structure));
                params.push(bind_nullable_text(&course.duration));
                params.push(bind_nullable_int(&course.price));
                params.push(bind_nullable_text(&course.language));
                params.push(bind_nullable_text(&course.level));
                params.push(Param::Int(course.teacher_id));
                params.push(Param::Int(course.id));
            },
            Statement::DeleteCourse { teacher_id, id } => {
                params.push(Param::Int(*teacher_id));
                params.push(Param::Int(*id));
            },
        }
        assert(params.deep_view() =~= self@.params());
        params
    }
}

} // verus!
