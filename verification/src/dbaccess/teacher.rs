//! Listing, reading, creating, updating and deleting teachers.

use crate::error::{MyError, MyErrorView};
use crate::models::teacher::{
    CreateTeacher,
    Teacher,
    TeacherRow,
    TeacherRowView,
    TeacherView,
    UpdateTeacher,
};
use crate::store::{outcome, Statement, StatementView, StoreFailure, StoreFailureView};
use vstd::prelude::*;
use vstd::string::StringExecFns;

verus! {

/// No column of any of the rows is null.
pub open spec fn all_complete(rows: Seq<TeacherRowView>) -> bool {
    forall|i: int| 0 <= i < rows.len() ==> (#[trigger] rows[i]).is_complete()
}

/// The teachers that complete rows hold, in the rows' order.
pub open spec fn teachers_of(rows: Seq<TeacherRowView>) -> Seq<TeacherView> {
    Seq::new(rows.len(), |i: int| rows[i].teacher())
}

/// What listing gives for a reply: the teachers of the rows; `NotFound`
/// where the store holds no teacher; `DBError` with the store's message
/// where it failed.
pub open spec fn teachers_listed(reply: Result<Seq<TeacherRowView>, StoreFailureView>) -> Result<
    Seq<TeacherView>,
    MyErrorView,
> {
    match reply {
        Ok(rows) => if rows.len() == 0 {
            Err(MyErrorView::NotFound("Not teachers found"@))
        } else {
            Ok(teachers_of(rows))
        },
        Err(failure) => Err(MyErrorView::DBError(failure.message)),
    }
}

/// What reading by id gives for a reply: the teacher of the row;
/// `NotFound` where there is no row; `DBError` with the store's message
/// where it failed.
pub open spec fn teacher_found(reply: Result<Option<TeacherRowView>, StoreFailureView>) -> Result<
    TeacherView,
    MyErrorView,
> {
    match reply {
        Ok(Some(row)) => Ok(row.teacher()),
        Ok(None) => Err(MyErrorView::NotFound("Teacher id not found"@)),
        Err(failure) => Err(MyErrorView::DBError(failure.message)),
    }
}

/// What creation gives for the reply to its second statement: the teacher
/// of the row; `DBError` with the store's message where no row came.
pub open spec fn teacher_reselected(reply: Result<TeacherRowView, StoreFailureView>) -> Result<
    TeacherView,
    MyErrorView,
> {
    match reply {
        Ok(row) => Ok(row.teacher()),
        Err(failure) => Err(MyErrorView::DBError(failure.message)),
    }
}

/// What deletion gives for a reply: a text that quotes the store's
/// diagnostic, whether or not a row was there; `DBError` where the store
/// failed.
pub open spec fn teacher_deletion_reported(reply: Result<Seq<char>, StoreFailureView>) -> Result<
    Seq<char>,
    MyErrorView,
> {
    match reply {
        Ok(detail) => Ok("Delete "@ + detail + " record"@),
        Err(_) => Err(MyErrorView::DBError("Unable to delete teacher"@)),
    }
}

/// Listing, waiting for the rows of all teachers.
#[derive(Debug)]
pub struct TeacherListing {
    /// To be run for all its rows.
    pub statement: Statement,
}

/// Reading by id, waiting for the teacher's row.
#[derive(Debug)]
pub struct TeacherLookup {
    /// To be run for at most one row.
    pub statement: Statement,
}

/// Creation, waiting for the insertion to be carried out.
#[derive(Debug)]
pub struct TeacherInsertion {
    /// To be executed.
    pub statement: Statement,
}

/// Creation, waiting for the row that was inserted.
#[derive(Debug)]
pub struct TeacherReselection {
    /// To be run for exactly one row.
    pub statement: Statement,
}

/// Update, waiting for the row as it is stored.
#[derive(Debug)]
pub struct TeacherRevision {
    /// To be run for at most one row.
    pub statement: Statement,
    pub teacher_id: i32,
    pub update: UpdateTeacher,
}

/// Update, waiting for the new values to be written.
#[derive(Debug)]
pub struct TeacherRewrite {
    /// To be executed.
    pub statement: Statement,
    pub teacher_id: i32,
}

/// Deletion, waiting for the statement to be carried out.
#[derive(Debug)]
pub struct TeacherDeletion {
    /// To be executed.
    pub statement: Statement,
}

/// Whether no column of any of the rows is null: what listing demands of
/// the rows it is given.
pub fn all_rows_complete(rows: &Vec<TeacherRow>) -> (complete: bool)
    ensures
        complete == all_complete(rows.deep_view()),
{
    let mut i: usize = 0;
    while i < rows.len()
        invariant
            i <= rows.len(),
            forall|j: int| 0 <= j < i ==> (#[trigger] rows.deep_view()[j]).is_complete(),
        decreases rows.len() - i,
    {
        if !rows[i].is_complete() {
            assert(!rows.deep_view()[i as int].is_complete());
            return false;
        }
        i += 1;
    }
    true
}

/// Begins listing all teachers.
pub fn get_all_teacher_db() -> (listing: TeacherListing)
    ensures
        listing.statement@ == StatementView::ListTeachers,
{
    TeacherListing { statement: Statement::ListTeachers }
}

impl TeacherListing {
    /// Ends the listing. Gives the teachers in the order of the rows;
    /// `NotFound` where the store holds none; `DBError` with the store's
    /// message where it failed.
    pub fn finish(self, reply: Result<Vec<TeacherRow>, StoreFailure>) -> (result: Result<
        Vec<Teacher>,
        MyError,
    >)
        requires
            outcome(reply) matches Ok(rows) ==> all_complete(rows),
        ensures
            outcome(result) == teachers_listed(outcome(reply)),
    {
        match reply {
            Ok(rows) => {
                let mut teachers: Vec<Teacher> = Vec::new();
                let mut i: usize = 0;
                while i < rows.len()
                    invariant
                        i <= rows.len(),
                        teachers.len() == i,
                        all_complete(rows.deep_view()),
                        forall|j: int| 0 <= j < i ==> (#[trigger] teachers[j])@ == rows[j]@.teacher(),
                    decreases rows.len() - i,
                {
                    assert(rows.deep_view()[i as int].is_complete());
                    teachers.push(Teacher::from_row(&rows[i]));
                    i += 1;
                }
                if teachers.len() == 0 {
                    Err(MyError::NotFound("Not teachers found".to_owned()))
                } else {
                    assert(teachers.deep_view() =~= teachers_of(rows.deep_view()));
                    Ok(teachers)
                }
            },
            Err(failure) => Err(MyError::DBError(failure.message)),
        }
    }
}

/// Begins reading the teacher with this id.
pub fn get_teacher_detail_db(teacher_id: i32) -> (lookup: TeacherLookup)
    ensures
        lookup.statement@ == (StatementView::FindTeacher { id: teacher_id }),
{
    TeacherLookup { statement: Statement::FindTeacher { id: teacher_id } }
}

impl TeacherLookup {
    /// Ends the reading. Gives the teacher of the row; `NotFound` where
    /// there is no row; `DBError` with the store's message where the
    /// store failed.
    pub fn finish(self, reply: Result<Option<TeacherRow>, StoreFailure>) -> (result: Result<
        Teacher,
        MyError,
    >)
        requires
            outcome(reply) matches Ok(Some(row)) ==> row.is_complete(),
        ensures
            outcome(result) == teacher_found(outcome(reply)),
    {
        match reply {
            Ok(Some(row)) => Ok(Teacher::from_row(&row)),
            Ok(None) => Err(MyError::NotFound("Teacher id not found".to_owned())),
            Err(failure) => Err(MyError::DBError(failure.message)),
        }
    }
}

/// Begins creating a teacher with the submitted fields.
pub fn post_new_teacher_db(new_teacher: CreateTeacher) -> (insertion: TeacherInsertion)
    ensures
        insertion.statement@ == StatementView::InsertTeacher(new_teacher@),
{
    TeacherInsertion { statement: Statement::InsertTeacher(new_teacher) }
}

impl TeacherInsertion {
    /// Goes on after the insertion: asks for the row with the greatest
    /// id, or ends with `DBError` and the store's message where the store
    /// refused.
    pub fn resume(self, reply: Result<String, StoreFailure>) -> (next: Result<
        TeacherReselection,
        MyError,
    >)
        ensures
            match outcome(reply) {
                Ok(_) => next matches Ok(reselection) && reselection.statement@
                    == StatementView::LastTeacher,
                Err(failure) => next matches Err(error) && error@ == MyErrorView::DBError(
                    failure.message,
                ),
            },
    {
        match reply {
            Ok(_) => Ok(TeacherReselection { statement: Statement::LastTeacher }),
            Err(failure) => Err(MyError::DBError(failure.message)),
        }
    }
}

impl TeacherReselection {
    /// Ends the creation. Gives the teacher of the row; `DBError` with the
    /// store's message where no row came.
    pub fn finish(self, reply: Result<TeacherRow, StoreFailure>) -> (result: Result<
        Teacher,
        MyError,
    >)
        requires
            outcome(reply) matches Ok(row) ==> row.is_complete(),
        ensures
            outcome(result) == teacher_reselected(outcome(reply)),
    {
        match reply {
            Ok(row) => Ok(Teacher::from_row(&row)),
            Err(failure) => Err(MyError::DBError(failure.message)),
        }
    }
}

/// Begins updating the teacher with this id.
pub fn update_teacher_details_db(teacher_id: i32, update_teacher: UpdateTeacher) -> (revision:
    TeacherRevision)
    ensures
        revision.statement@ == (StatementView::FindTeacher { id: teacher_id }),
        revision.teacher_id == teacher_id,
        revision.update@ == update_teacher@,
{
    TeacherRevision {
        statement: Statement::FindTeacher { id: teacher_id },
        teacher_id,
        update: update_teacher,
    }
}

impl TeacherRevision {
    /// Goes on after the stored row has come: asks to write, under the id
    /// of the update, the row with the submitted fields laid over it. Ends
    /// with `NotFound` where there is no row, and with `DBError` and the
    /// store's message where the store failed.
    pub fn resume(self, reply: Result<Option<TeacherRow>, StoreFailure>) -> (next: Result<
        TeacherRewrite,
        MyError,
    >)
        requires
            outcome(reply) matches Ok(Some(row)) ==> row.covers(self.update@),
        ensures
            match outcome(reply) {
                Ok(Some(row)) => next matches Ok(rewrite) && rewrite.teacher_id == self.teacher_id
                    && rewrite.statement@ == StatementView::UpdateTeacher(
                    row.merged(self.update@).under(self.teacher_id),
                ),
                Ok(None) => next matches Err(error) && error@ == MyErrorView::NotFound(
                    "Teacher id not found"@,
                ),
                Err(failure) => next matches Err(error) && error@ == MyErrorView::DBError(
                    failure.message,
                ),
            },
    {
        match reply {
            Ok(Some(row)) => {
                let merged = Teacher::merged(row, self.update);
                let written = Teacher {
                    id: self.teacher_id,
                    name: merged.name,
                    picture_url: merged.picture_url,
                    profile: merged.profile,
                };
                Ok(
                    TeacherRewrite {
                        statement: Statement::UpdateTeacher(written),
                        teacher_id: self.teacher_id,
                    },
                )
            },
            Ok(None) => Err(MyError::NotFound("Teacher id not found".to_owned())),
            Err(failure) => Err(MyError::DBError(failure.message)),
        }
    }
}

impl TeacherRewrite {
    /// Goes on after the writing: asks for the row again, or ends with
    /// `DBError` and the store's message where the store refused.
    pub fn resume(self, reply: Result<String, StoreFailure>) -> (next: Result<
        TeacherLookup,
        MyError,
    >)
        ensures
            match outcome(reply) {
                Ok(_) => next matches Ok(lookup) && lookup.statement@ == (
                StatementView::FindTeacher { id: self.teacher_id }),
                Err(failure) => next matches Err(error) && error@ == MyErrorView::DBError(
                    failure.message,
                ),
            },
    {
        match reply {
            Ok(_) => Ok(get_teacher_detail_db(self.teacher_id)),
            Err(failure) => Err(MyError::DBError(failure.message)),
        }
    }
}

/// Begins deleting the teacher with this id.
pub fn delete_teacher_db(teacher_id: i32) -> (deletion: TeacherDeletion)
    ensures
        deletion.statement@ == (StatementView::DeleteTeacher { id: teacher_id }),
{
    TeacherDeletion { statement: Statement::DeleteTeacher { id: teacher_id } }
}

impl TeacherDeletion {
    /// Ends the deletion. Gives a text that quotes the store's diagnostic,
    /// whether or not a row was there; `DBError` where the store failed.
    pub fn finish(self, reply: Result<String, StoreFailure>) -> (result: Result<String, MyError>)
        ensures
            outcome(result) == teacher_deletion_reported(outcome(reply)),
    {
        match reply {
            Ok(detail) => {
                let mut message = "Delete ".to_owned();
                message.append(detail.as_str());
                message.append(" record");
                Ok(message)
            },
            Err(_) => Err(MyError::DBError("Unable to delete teacher".to_owned())),
        }
    }
}

} // verus!
