//! The teacher operations run against the model of the store, and what
//! holds of every such run.
//!
//! A run hands each statement that an operation asks for to the store and
//! each reply back to the operation, until a result comes. Where the
//! operation demands complete rows, a run is one in which they were.

use crate::dbaccess::teacher::{
    all_complete,
    teacher_deletion_reported,
    teacher_found,
    teacher_reselected,
    teachers_listed,
    teachers_of,
    TeacherDeletion,
    TeacherInsertion,
    TeacherListing,
    TeacherLookup,
    TeacherReselection,
    TeacherRevision,
    TeacherRewrite,
};
use crate::error::{MyError, MyErrorView};
use crate::models::teacher::{
    CreateTeacher,
    CreateTeacherView,
    Teacher,
    TeacherRow,
    TeacherRowView,
    TeacherView,
    UpdateTeacherView,
};
use crate::seq_facts::lemma_filter_sources;
use crate::store::{outcome, StatementView, StoreFailure, StoreFailureView};
use crate::tables::{
    greatest_teacher_at,
    lemma_find_teacher,
    lemma_miss_teacher,
    lemma_writes_keep_keys,
    teacher_is,
    teacher_is_not,
    Tables,
};
use vstd::prelude::*;

verus! {

/// Listing all teachers of `tables` gives `result`.
pub open spec fn lists_teachers(tables: Tables, result: Result<Seq<TeacherView>, MyErrorView>)
    -> bool {
    exists|reply: Result<Seq<TeacherRowView>, StoreFailureView>|
        {
            &&& #[trigger] tables.gives_teachers(StatementView::ListTeachers, reply)
            &&& reply matches Ok(rows) ==> all_complete(rows)
            &&& result == teachers_listed(reply)
        }
}

/// Reading the teacher `id` from `tables` gives `result`.
pub open spec fn reads_teacher(tables: Tables, id: i32, result: Result<TeacherView, MyErrorView>)
    -> bool {
    exists|reply: Result<Option<TeacherRowView>, StoreFailureView>|
        {
            &&& #[trigger] tables.gives_optional_teacher(StatementView::FindTeacher { id }, reply)
            &&& reply matches Ok(Some(row)) ==> row.is_complete()
            &&& result == teacher_found(reply)
        }
}

/// Creating a teacher from `new` in `before` gives `result` and leaves
/// `after`.
pub open spec fn creates_teacher(
    before: Tables,
    new: CreateTeacherView,
    result: Result<TeacherView, MyErrorView>,
    after: Tables,
) -> bool {
    exists|inserted: Result<Seq<char>, StoreFailureView>|
        {
            &&& #[trigger] before.executes(StatementView::InsertTeacher(new), inserted, after)
            &&& match inserted {
                Ok(_) => exists|reselected: Result<TeacherRowView, StoreFailureView>|
                    {
                        &&& #[trigger] after.gives_one_teacher(StatementView::LastTeacher, reselected)
                        &&& reselected matches Ok(row) ==> row.is_complete()
                        &&& result == teacher_reselected(reselected)
                    },
                Err(failure) => result == Err::<TeacherView, MyErrorView>(
                    MyErrorView::DBError(failure.message),
                ),
            }
        }
}

/// Updating the teacher `id` of `before` with `update` gives `result` and
/// leaves `after`.
pub open spec fn updates_teacher(
    before: Tables,
    id: i32,
    update: UpdateTeacherView,
    result: Result<TeacherView, MyErrorView>,
    after: Tables,
) -> bool {
    exists|read: Result<Option<TeacherRowView>, StoreFailureView>|
        {
            &&& #[trigger] before.gives_optional_teacher(StatementView::FindTeacher { id }, read)
            &&& match read {
                Ok(Some(row)) => {
                    &&& row.covers(update)
                    &&& exists|written: Result<Seq<char>, StoreFailureView>|
                        {
                            &&& #[trigger] before.executes(
                                StatementView::UpdateTeacher(row.merged(update).under(id)),
                                written,
                                after,
                            )
                            &&& match written {
                                Ok(_) => reads_teacher(after, id, result),
                                Err(failure) => result == Err::<TeacherView, MyErrorView>(
                                    MyErrorView::DBError(failure.message),
                                ),
                            }
                        }
                },
                Ok(None) => {
                    &&& after == before
                    &&& result == Err::<TeacherView, MyErrorView>(
                        MyErrorView::NotFound("Teacher id not found"@),
                    )
                },
                Err(failure) => {
                    &&& after == before
                    &&& result == Err::<TeacherView, MyErrorView>(
                        MyErrorView::DBError(failure.message),
                    )
                },
            }
        }
}

/// Deleting the teacher `id` from `before` gives `result` and leaves
/// `after`.
pub open spec fn deletes_teacher(
    before: Tables,
    id: i32,
    result: Result<Seq<char>, MyErrorView>,
    after: Tables,
) -> bool {
    exists|reply: Result<Seq<char>, StoreFailureView>|
        {
            &&& #[trigger] before.executes(StatementView::DeleteTeacher { id }, reply, after)
            &&& result == teacher_deletion_reported(reply)
        }
}

/// Listing an empty table gives `NotFound`, and listing any other table
/// gives the teachers of all its rows in the table's order.
pub proof fn listing_gives_all_or_not_found(
    tables: Tables,
    result: Result<Seq<TeacherView>, MyErrorView>,
)
    requires
        lists_teachers(tables, result),
    ensures
        tables.teachers.len() == 0 ==> result == Err::<Seq<TeacherView>, MyErrorView>(
            MyErrorView::NotFound("Not teachers found"@),
        ),
        tables.teachers.len() > 0 ==> result == Ok::<Seq<TeacherView>, MyErrorView>(
            teachers_of(tables.teachers),
        ),
{
}

/// Reading an id that a row has gives the teacher of that row, and reading
/// an id that no row has gives `NotFound`.
pub proof fn reading_gives_the_row_or_not_found(
    tables: Tables,
    id: i32,
    result: Result<TeacherView, MyErrorView>,
)
    requires
        tables.well_formed(),
        reads_teacher(tables, id, result),
    ensures
        forall|k: int|
            0 <= k < tables.teachers.len() && (#[trigger] tables.teachers[k]).id == id ==> result
                == Ok::<TeacherView, MyErrorView>(tables.teachers[k].teacher()),
        (forall|k: int| 0 <= k < tables.teachers.len() ==> (#[trigger] tables.teachers[k]).id != id)
            ==> result == Err::<TeacherView, MyErrorView>(
            MyErrorView::NotFound("Teacher id not found"@),
        ),
{
    assert forall|k: int|
        0 <= k < tables.teachers.len() && (#[trigger] tables.teachers[k]).id == id implies result
        == Ok::<TeacherView, MyErrorView>(tables.teachers[k].teacher()) by {
        lemma_find_teacher(tables.teachers, k);
    }
    if forall|k: int| 0 <= k < tables.teachers.len() ==> (#[trigger] tables.teachers[k]).id != id {
        lemma_miss_teacher(tables.teachers, id);
    }
}

/// Creation that succeeds has added one row, under an id above all that
/// were present, with the fields exactly as submitted, and gives that
/// teacher. Creation that fails has changed nothing.
pub proof fn creation_adds_the_submitted_teacher(
    before: Tables,
    new: CreateTeacherView,
    result: Result<TeacherView, MyErrorView>,
    after: Tables,
)
    requires
        before.well_formed(),
        creates_teacher(before, new, result, after),
    ensures
        after.well_formed(),
        match result {
            Ok(created) => {
                &&& created == new.with_id(created.id)
                &&& before.assigns_teacher(created.id)
                &&& after == before.with_teacher(new, created.id)
            },
            Err(_) => after == before,
        },
{
    if before.writes(StatementView::InsertTeacher(new), after) {
        lemma_writes_keep_keys(before, StatementView::InsertTeacher(new), after);
        let id = choose|id: i32|
            before.assigns_teacher(id) && after == #[trigger] before.with_teacher(new, id);
        let rows = after.teachers;
        let last = rows.len() - 1;
        assert(rows[last] == new.with_id(id).row());
        assert forall|j: int| 0 <= j < rows.len() implies (#[trigger] rows[j]).id
            <= rows[last].id by {
            if j < last {
                assert(rows[j] == before.teachers[j]);
            }
        }
        assert(greatest_teacher_at(rows, last));
        let top = choose|i: int| greatest_teacher_at(rows, i);
        if top < last {
            assert(rows[top] == before.teachers[top]);
            assert(rows[last].id <= rows[top].id);
        }
        assert(top == last);
    }
}

/// A teacher that was created is read back under its id with the fields
/// exactly as they were submitted.
pub proof fn created_teacher_is_read_back(
    before: Tables,
    new: CreateTeacherView,
    created: TeacherView,
    after: Tables,
    found: Result<TeacherView, MyErrorView>,
)
    requires
        before.well_formed(),
        creates_teacher(before, new, Ok(created), after),
        reads_teacher(after, created.id, found),
    ensures
        created.name == new.name,
        created.picture_url == new.picture_url,
        created.profile == new.profile,
        found == Ok::<TeacherView, MyErrorView>(created),
{
    creation_adds_the_submitted_teacher(before, new, Ok(created), after);
    reading_gives_the_row_or_not_found(after, created.id, found);
    let last = after.teachers.len() - 1;
    assert(after.teachers[last] == new.with_id(created.id).row());
}

/// An update that succeeds has found exactly one row under the id, gives
/// that row's teacher with each submitted field in place of the stored one
/// and every other field as it was stored, and has written just that into
/// that row: every other row is as it was, and no row has come or gone.
pub proof fn update_replaces_only_submitted_fields(
    before: Tables,
    id: i32,
    update: UpdateTeacherView,
    updated: TeacherView,
    after: Tables,
)
    requires
        before.well_formed(),
        updates_teacher(before, id, update, Ok(updated), after),
    ensures
        after.well_formed(),
        before.teacher_rows(StatementView::FindTeacher { id }).len() == 1,
        ({
            let stored = before.teacher_rows(StatementView::FindTeacher { id })[0];
            &&& stored.id == id
            &&& updated == stored.merged(update)
            &&& updated.id == id
            &&& update.name is Some ==> updated.name == update.name.unwrap()
            &&& update.name is None ==> Some(updated.name) == stored.name
            &&& update.picture_url is Some ==> updated.picture_url == update.picture_url.unwrap()
            &&& update.picture_url is None ==> Some(updated.picture_url) == stored.picture_url
            &&& update.profile is Some ==> updated.profile == update.profile.unwrap()
            &&& update.profile is None ==> Some(updated.profile) == stored.profile
        }),
        after.courses == before.courses,
        after.teachers.len() == before.teachers.len(),
        forall|i: int|
            0 <= i < before.teachers.len() ==> #[trigger] after.teachers[i] == if before.teachers[i].id
                == id {
                updated.row()
            } else {
                before.teachers[i]
            },
        forall|i: int|
            0 <= i < before.teachers.len() ==> (#[trigger] after.teachers[i]).id
                == before.teachers[i].id,
{
    let read = choose|read: Result<Option<TeacherRowView>, StoreFailureView>|
        {
            &&& #[trigger] before.gives_optional_teacher(StatementView::FindTeacher { id }, read)
            &&& read matches Ok(Some(_))
        };
    let stored = read->Ok_0->Some_0;
    let sources = lemma_filter_sources(before.teachers, teacher_is(id));
    let k = sources[0];
    assert(before.teachers[k] == stored);
    lemma_find_teacher(before.teachers, k);
    let written_row = stored.merged(update).under(id);
    lemma_writes_keep_keys(before, StatementView::UpdateTeacher(written_row), after);
    assert(after.teachers[k] == written_row.row());
    reading_gives_the_row_or_not_found(after, id, Ok(updated));
    assert(after.teachers[k].id == id);
}

/// An update of an id that no row has gives `NotFound` and changes
/// nothing.
pub proof fn update_of_an_absent_teacher_changes_nothing(
    before: Tables,
    id: i32,
    update: UpdateTeacherView,
    result: Result<TeacherView, MyErrorView>,
    after: Tables,
)
    requires
        forall|k: int| 0 <= k < before.teachers.len() ==> (#[trigger] before.teachers[k]).id != id,
        updates_teacher(before, id, update, result, after),
    ensures
        result == Err::<TeacherView, MyErrorView>(MyErrorView::NotFound("Teacher id not found"@)),
        after == before,
{
    lemma_miss_teacher(before.teachers, id);
}

/// Deletion that the store carries out reports success whether or not a
/// row was there, removes the rows with the id and no others, and leaves
/// the courses of the teacher behind. Deletion that the store refuses
/// gives `DBError` and changes nothing.
pub proof fn deletion_removes_the_teacher_only(
    before: Tables,
    id: i32,
    result: Result<Seq<char>, MyErrorView>,
    after: Tables,
)
    requires
        before.well_formed(),
        deletes_teacher(before, id, result, after),
    ensures
        after.well_formed(),
        after.courses == before.courses,
        result is Ok ==> after.teachers == before.teachers.filter(teacher_is_not(id)),
        result is Err ==> after == before && result == Err::<Seq<char>, MyErrorView>(
            MyErrorView::DBError("Unable to delete teacher"@),
        ),
{
    if result is Ok {
        lemma_writes_keep_keys(before, StatementView::DeleteTeacher { id }, after);
    }
}

/// After a deletion that succeeds, reading the same id gives `NotFound`.
pub proof fn deleted_teacher_is_not_found(
    before: Tables,
    id: i32,
    message: Seq<char>,
    after: Tables,
    found: Result<TeacherView, MyErrorView>,
)
    requires
        deletes_teacher(before, id, Ok(message), after),
        reads_teacher(after, id, found),
    ensures
        found == Err::<TeacherView, MyErrorView>(MyErrorView::NotFound("Teacher id not found"@)),
{
    let sources = lemma_filter_sources(before.teachers, teacher_is_not(id));
    assert forall|k: int| 0 <= k < after.teachers.len() implies (#[trigger] after.teachers[k]).id
        != id by {
        assert(after.teachers[k] == before.teachers[sources[k]]);
    }
    lemma_miss_teacher(after.teachers, id);
}

/// What `get_all_teacher_db` and its `finish` give, for the store's reply
/// to the statement asked, is a listing of the tables.
pub proof fn get_all_teacher_db_lists_teachers(
    tables: Tables,
    listing: TeacherListing,
    reply: Result<Vec<TeacherRow>, StoreFailure>,
    result: Result<Vec<Teacher>, MyError>,
)
    requires
        listing.statement@ == StatementView::ListTeachers,
        tables.gives_teachers(listing.statement@, outcome(reply)),
        outcome(reply) matches Ok(rows) ==> all_complete(rows),
        outcome(result) == teachers_listed(outcome(reply)),
    ensures
        lists_teachers(tables, outcome(result)),
{
}

/// What `get_teacher_detail_db` and its `finish` give, for the store's
/// reply to the statement asked, is a reading of the tables.
pub proof fn get_teacher_detail_db_reads_teacher(
    tables: Tables,
    teacher_id: i32,
    lookup: TeacherLookup,
    reply: Result<Option<TeacherRow>, StoreFailure>,
    result: Result<Teacher, MyError>,
)
    requires
        lookup.statement@ == (StatementView::FindTeacher { id: teacher_id }),
        tables.gives_optional_teacher(lookup.statement@, outcome(reply)),
        outcome(reply) matches Ok(Some(row)) ==> row.is_complete(),
        outcome(result) == teacher_found(outcome(reply)),
    ensures
        reads_teacher(tables, teacher_id, outcome(result)),
{
}

/// What `post_new_teacher_db`, `resume` and `finish` give, for the store's
/// replies to the statements asked, is a creation: where `resume` ends
/// the operation, its failure is the result.
pub proof fn post_new_teacher_db_creates_teacher(
    before: Tables,
    new_teacher: CreateTeacher,
    insertion: TeacherInsertion,
    inserted: Result<String, StoreFailure>,
    next: Result<TeacherReselection, MyError>,
    reselected: Result<TeacherRow, StoreFailure>,
    result: Result<Teacher, MyError>,
    after: Tables,
)
    requires
        insertion.statement@ == StatementView::InsertTeacher(new_teacher@),
        before.executes(insertion.statement@, outcome(inserted), after),
        match outcome(inserted) {
            Ok(_) => next matches Ok(reselection) && reselection.statement@
                == StatementView::LastTeacher,
            Err(failure) => next matches Err(error) && error@ == MyErrorView::DBError(
                failure.message,
            ),
        },
        match next {
            Ok(reselection) => {
                &&& after.gives_one_teacher(reselection.statement@, outcome(reselected))
                &&& outcome(reselected) matches Ok(row) ==> row.is_complete()
                &&& outcome(result) == teacher_reselected(outcome(reselected))
            },
            Err(error) => outcome(result) == Err::<TeacherView, MyErrorView>(error@),
        },
    ensures
        creates_teacher(before, new_teacher@, outcome(result), after),
{
}

/// What `update_teacher_details_db`, the two `resume` and `finish` give,
/// for the store's replies to the statements asked, is an update: where a
/// `resume` ends the operation, its failure is the result, and nothing
/// was written unless the writing was asked for.
pub proof fn update_teacher_details_db_updates_teacher(
    before: Tables,
    teacher_id: i32,
    update: UpdateTeacherView,
    revision: TeacherRevision,
    read: Result<Option<TeacherRow>, StoreFailure>,
    rewritten: Result<TeacherRewrite, MyError>,
    written: Result<String, StoreFailure>,
    reread_asked: Result<TeacherLookup, MyError>,
    reread: Result<Option<TeacherRow>, StoreFailure>,
    result: Result<Teacher, MyError>,
    after: Tables,
)
    requires
        revision.statement@ == (StatementView::FindTeacher { id: teacher_id }),
        revision.teacher_id == teacher_id,
        revision.update@ == update,
        before.gives_optional_teacher(revision.statement@, outcome(read)),
        outcome(read) matches Ok(Some(row)) ==> row.covers(update),
        match outcome(read) {
            Ok(Some(row)) => rewritten matches Ok(rewrite) && rewrite.teacher_id
                == revision.teacher_id && rewrite.statement@ == StatementView::UpdateTeacher(
                row.merged(revision.update@).under(revision.teacher_id),
            ),
            Ok(None) => rewritten matches Err(error) && error@ == MyErrorView::NotFound(
                "Teacher id not found"@,
            ),
            Err(failure) => rewritten matches Err(error) && error@ == MyErrorView::DBError(
                failure.message,
            ),
        },
        match rewritten {
            Ok(rewrite) => {
                &&& before.executes(rewrite.statement@, outcome(written), after)
                &&& match outcome(written) {
                    Ok(_) => reread_asked matches Ok(lookup) && lookup.statement@ == (
                    StatementView::FindTeacher { id: rewrite.teacher_id }),
                    Err(failure) => reread_asked matches Err(error) && error@
                        == MyErrorView::DBError(failure.message),
                }
                &&& match reread_asked {
                    Ok(lookup) => {
                        &&& after.gives_optional_teacher(lookup.statement@, outcome(reread))
                        &&& outcome(reread) matches Ok(Some(row)) ==> row.is_complete()
                        &&& outcome(result) == teacher_found(outcome(reread))
                    },
                    Err(error) => outcome(result) == Err::<TeacherView, MyErrorView>(error@),
                }
            },
            Err(error) => {
                &&& after == before
                &&& outcome(result) == Err::<TeacherView, MyErrorView>(error@)
            },
        },
    ensures
        updates_teacher(before, teacher_id, update, outcome(result), after),
{
    if rewritten is Ok && reread_asked is Ok {
        assert(reads_teacher(after, teacher_id, outcome(result)));
    }
}

/// What `delete_teacher_db` and its `finish` give, for the store's reply
/// to the statement asked, is a deletion.
pub proof fn delete_teacher_db_deletes_teacher(
    before: Tables,
    teacher_id: i32,
    deletion: TeacherDeletion,
    reply: Result<String, StoreFailure>,
    result: Result<String, MyError>,
    after: Tables,
)
    requires
        deletion.statement@ == (StatementView::DeleteTeacher { id: teacher_id }),
        before.executes(deletion.statement@, outcome(reply), after),
        outcome(result) == teacher_deletion_reported(outcome(reply)),
    ensures
        deletes_teacher(before, teacher_id, outcome(result), after),
{
}

} // verus!
