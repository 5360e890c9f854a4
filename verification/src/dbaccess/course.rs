//! Listing, reading, creating, updating and deleting courses. Every
//! statement but the insertion names the teacher as well as the course:
//! a course is reached only through the teacher it belongs to.

use crate::error::{MyError, MyErrorView};
use crate::models::course::{Course, CourseView, CreateCourse, UpdateCourse};
use crate::store::{outcome, Statement, StatementView, StoreFailure, StoreFailureView};
use vstd::prelude::*;
use vstd::string::StringExecFns;

verus! {

/// What listing gives for a reply: the courses as they came, none
/// included; `DBError` with the store's message where it failed.
pub open spec fn courses_listed(reply: Result<Seq<CourseView>, StoreFailureView>) -> Result<
    Seq<CourseView>,
    MyErrorView,
> {
    match reply {
        Ok(rows) => Ok(rows),
        Err(failure) => Err(MyErrorView::DBError(failure.message)),
    }
}

/// What reading by teacher and id gives for a reply: the course;
/// `NotFound` where there is none; `DBError` with the store's message
/// where it failed.
pub open spec fn course_looked_up(reply: Result<Option<CourseView>, StoreFailureView>) -> Result<
    CourseView,
    MyErrorView,
> {
    match reply {
        Ok(Some(course)) => Ok(course),
        Ok(None) => Err(MyErrorView::NotFound("Course id not found"@)),
        Err(failure) => Err(MyErrorView::DBError(failure.message)),
    }
}

/// What creation gives for the reply to its second statement: the course;
/// `DBError` with the store's message where none came.
pub open spec fn course_reselected(reply: Result<CourseView, StoreFailureView>) -> Result<
    CourseView,
    MyErrorView,
> {
    match reply {
        Ok(course) => Ok(course),
        Err(failure) => Err(MyErrorView::DBError(failure.message)),
    }
}

/// What deletion gives for a reply: a text that quotes the store's
/// diagnostic, whether or not a course was there; `DBError` with the
/// store's message where it failed.
pub open spec fn course_deletion_reported(reply: Result<Seq<char>, StoreFailureView>) -> Result<
    Seq<char>,
    MyErrorView,
> {
    match reply {
        Ok(detail) => Ok("Delete Ok("@ + detail + ") record"@),
        Err(failure) => Err(MyErrorView::DBError(failure.message)),
    }
}

/// Listing, waiting for the courses of one teacher.
#[derive(Debug)]
pub struct CourseListing {
    /// To be run for all its rows.
    pub statement: Statement,
}

/// Reading by teacher and id, waiting for the course.
#[derive(Debug)]
pub struct CourseLookup {
    /// To be run for at most one row.
    pub statement: Statement,
}

/// Creation, waiting for the insertion to be carried out.
#[derive(Debug)]
pub struct CourseInsertion {
    /// To be executed.
    pub statement: Statement,
    pub teacher_id: i32,
}

/// Creation, waiting for the course that was inserted.
#[derive(Debug)]
pub struct CourseReselection {
    /// To be run for exactly one row.
    pub statement: Statement,
}

/// Update, waiting for the course as it is stored.
#[derive(Debug)]
pub struct CourseRevision {
    /// To be run for at most one row.
    pub statement: Statement,
    pub teacher_id: i32,
    pub id: i32,
    pub update: UpdateCourse,
}

/// Update, waiting for the new values to be written.
#[derive(Debug)]
pub struct CourseRewrite {
    /// To be executed.
    pub statement: Statement,
    pub teacher_id: i32,
    pub id: i32,
}

/// Deletion, waiting for the statement to be carried out.
#[derive(Debug)]
pub struct CourseDeletion {
    /// To be executed.
    pub statement: Statement,
}

/// Begins listing the courses of this teacher.
pub fn get_course_for_teacher_db(teacher_id: i32) -> (listing: CourseListing)
    ensures
        listing.statement@ == (StatementView::ListCourses { teacher_id }),
{
    CourseListing { statement: Statement::ListCourses { teacher_id } }
}

impl CourseListing {
    /// Ends the listing. Gives the courses as they came, be it none;
    /// `DBError` with the store's message where the store failed.
    pub fn finish(self, reply: Result<Vec<Course>, StoreFailure>) -> (result: Result<
        Vec<Course>,
        MyError,
    >)
        ensures
            outcome(result) == courses_listed(outcome(reply)),
    {
        match reply {
            Ok(rows) => Ok(rows),
            Err(failure) => Err(MyError::DBError(failure.message)),
        }
    }
}

/// Begins reading the course with this id of this teacher.
pub fn get_course_detail_db(teacher_id: i32, course_id: i32) -> (lookup: CourseLookup)
    ensures
        lookup.statement@ == (StatementView::FindCourse { teacher_id, id: course_id }),
{
    CourseLookup { statement: Statement::FindCourse { teacher_id, id: course_id } }
}

impl CourseLookup {
    /// Ends the reading. Gives the course; `NotFound` where this teacher
    /// has no course with this id; `DBError` with the store's message
    /// where the store failed.
    pub fn finish(self, reply: Result<Option<Course>, StoreFailure>) -> (result: Result<
        Course,
        MyError,
    >)
        ensures
            outcome(result) == course_looked_up(outcome(reply)),
    {
        match reply {
            Ok(Some(course)) => Ok(course),
            Ok(None) => Err(MyError::NotFound("Course id not found".to_owned())),
            Err(failure) => Err(MyError::DBError(failure.message)),
        }
    }
}

/// Begins creating a course with the submitted fields.
pub fn post_new_course_db(new_course: CreateCourse) -> (insertion: CourseInsertion)
    ensures
        insertion.statement@ == StatementView::InsertCourse(new_course@),
        insertion.teacher_id == new_course.teacher_id,
{
    let teacher_id = new_course.teacher_id;
    CourseInsertion { statement: Statement::InsertCourse(new_course), teacher_id }
}

impl CourseInsertion {
    /// Goes on after the insertion: asks for the course with the greatest
    /// id among those of the same teacher, or ends with `DBError` and the
    /// store's message where the store refused.
    pub fn resume(self, reply: Result<String, StoreFailure>) -> (next: Result<
        CourseReselection,
        MyError,
    >)
        ensures
            match outcome(reply) {
                Ok(_) => next matches Ok(reselection) && reselection.statement@ == (
                StatementView::LastCourse { teacher_id: self.teacher_id }),
                Err(failure) => next matches Err(error) && error@ == MyErrorView::DBError(
                    failure.message,
                ),
            },
    {
        match reply {
            Ok(_) => Ok(
                CourseReselection {
                    statement: Statement::LastCourse { teacher_id: self.teacher_id },
                },
            ),
            Err(failure) => Err(MyError::DBError(failure.message)),
        }
    }
}

impl CourseReselection {
    /// Ends the creation. Gives the course; `DBError` with the store's
    /// message where none came.
    pub fn finish(self, reply: Result<Course, StoreFailure>) -> (result: Result<Course, MyError>)
        ensures
            outcome(result) == course_reselected(outcome(reply)),
    {
        match reply {
            Ok(course) => Ok(course),
            Err(failure) => Err(MyError::DBError(failure.message)),
        }
    }
}

/// Begins updating the course with this id of this teacher.
pub fn update_course_detail_db(teacher_id: i32, id: i32, update_course: UpdateCourse) -> (revision:
    CourseRevision)
    ensures
        revision.statement@ == (StatementView::FindCourse { teacher_id, id }),
        revision.teacher_id == teacher_id,
        revision.id == id,
        revision.update@ == update_course@,
{
    CourseRevision {
        statement: Statement::FindCourse { teacher_id, id },
        teacher_id,
        id,
        update: update_course,
    }
}

impl CourseRevision {
    /// Goes on after the stored course has come: asks to write, under the
    /// keys of the update, the course with the submitted fields laid over
    /// it. Ends with `NotFound` where this teacher has no course with this
    /// id, and with `DBError` and the store's message where the store
    /// failed.
    pub fn resume(self, reply: Result<Option<Course>, StoreFailure>) -> (next: Result<
        CourseRewrite,
        MyError,
    >)
        ensures
            match outcome(reply) {
                Ok(Some(course)) => next matches Ok(rewrite) && rewrite.teacher_id
                    == self.teacher_id && rewrite.id == self.id && rewrite.statement@
                    == StatementView::UpdateCourse(
                    course.merged(self.update@).under(self.teacher_id, self.id),
                ),
                Ok(None) => next matches Err(error) && error@ == MyErrorView::NotFound(
                    "Course id not found"@,
                ),
                Err(failure) => next matches Err(error) && error@ == MyErrorView::DBError(
                    failure.message,
                ),
            },
    {
        match reply {
            Ok(Some(course)) => {
                let merged = Course::merged(course, self.update);
                let written = Course {
                    teacher_id: self.teacher_id,
                    id: self.id,
                    name: merged.name,
                    description: merged.description,
                    format: merged.format,
                    structure: merged.structure,
                    duration: merged.duration,
                    price: merged.price,
                    language: merged.language,
                    level: merged.level,
                };
                Ok(
                    CourseRewrite {
                        statement: Statement::UpdateCourse(written),
                        teacher_id: self.teacher_id,
                        id: self.id,
                    },
                )
            },
            Ok(None) => Err(MyError::NotFound("Course id not found".to_owned())),
            Err(failure) => Err(MyError::DBError(failure.message)),
        }
    }
}

impl CourseRewrite {
    /// Goes on after the writing: asks for the course again, or ends with
    /// `DBError` and the store's message where the store refused.
    pub fn resume(self, reply: Result<String, StoreFailure>) -> (next: Result<
        CourseLookup,
        MyError,
    >)
        ensures
            match outcome(reply) {
                Ok(_) => next matches Ok(lookup) && lookup.statement@ == (
                StatementView::FindCourse { teacher_id: self.teacher_id, id: self.id }),
                Err(failure) => next matches Err(error) && error@ == MyErrorView::DBError(
                    failure.message,
                ),
            },
    {
        match reply {
            Ok(_) => Ok(get_course_detail_db(self.teacher_id, self.id)),
            Err(failure) => Err(MyError::DBError(failure.message)),
        }
    }
}

/// Begins deleting the course with this id of this teacher.
pub fn delete_course_db(teacher_id: i32, id: i32) -> (deletion: CourseDeletion)
    ensures
        deletion.statement@ == (StatementView::DeleteCourse { teacher_id, id }),
{
    CourseDeletion { statement: Statement::DeleteCourse { teacher_id, id } }
}

impl CourseDeletion {
    /// Ends the deletion. Gives a text that quotes the store's diagnostic,
    /// whether or not a course was there; `DBError` with the store's
    /// message where the store failed.
    pub fn finish(self, reply: Result<String, StoreFailure>) -> (result: Result<String, MyError>)
        ensures
            outcome(result) == course_deletion_reported(outcome(reply)),
    {
        match reply {
            Ok(detail) => {
                let mut message = "Delete Ok(".to_owned();
                message.append(detail.as_str());
                message.append(") record");
                Ok(message)
            },
            Err(failure) => Err(MyError::DBError(failure.message)),
        }
    }
}

} // verus!
