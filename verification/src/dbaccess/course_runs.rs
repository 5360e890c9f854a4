//! The course operations run against the model of the store, and what
//! holds of every such run.

use crate::dbaccess::course::{
    course_deletion_reported,
    course_looked_up,
    course_reselected,
    courses_listed,
    CourseDeletion,
    CourseInsertion,
    CourseListing,
    CourseLookup,
    CourseReselection,
    CourseRevision,
    CourseRewrite,
};
use crate::error::{MyError, MyErrorView};
use crate::models::course::{Course, CourseView, CreateCourse, CreateCourseView, UpdateCourseView};
use crate::seq_facts::lemma_filter_sources;
use crate::store::{outcome, StatementView, StoreFailure, StoreFailureView};
use crate::tables::{
    course_is,
    course_is_not,
    course_of,
    greatest_course_at,
    lemma_find_course,
    lemma_miss_course,
    lemma_writes_keep_keys,
    Tables,
};
use vstd::prelude::*;

verus! {

/// Listing the courses of `teacher_id` in `tables` gives `result`.
pub open spec fn lists_courses(
    tables: Tables,
    teacher_id: i32,
    result: Result<Seq<CourseView>, MyErrorView>,
) -> bool {
    exists|reply: Result<Seq<CourseView>, StoreFailureView>|
        {
            &&& #[trigger] tables.gives_courses(StatementView::ListCourses { teacher_id }, reply)
            &&& result == courses_listed(reply)
        }
}

/// Reading the course `id` of `teacher_id` from `tables` gives `result`.
pub open spec fn reads_course(
    tables: Tables,
    teacher_id: i32,
    id: i32,
    result: Result<CourseView, MyErrorView>,
) -> bool {
    exists|reply: Result<Option<CourseView>, StoreFailureView>|
        {
            &&& #[trigger] tables.gives_optional_course(
                StatementView::FindCourse { teacher_id, id },
                reply,
            )
            &&& result == course_looked_up(reply)
        }
}

/// Creating a course from `new` in `before` gives `result` and leaves
/// `after`.
pub open spec fn creates_course(
    before: Tables,
    new: CreateCourseView,
    result: Result<CourseView, MyErrorView>,
    after: Tables,
) -> bool {
    exists|inserted: Result<Seq<char>, StoreFailureView>|
        {
            &&& #[trigger] before.executes(StatementView::InsertCourse(new), inserted, after)
            &&& match inserted {
                Ok(_) => exists|reselected: Result<CourseView, StoreFailureView>|
                    {
                        &&& #[trigger] after.gives_one_course(
                            StatementView::LastCourse { teacher_id: new.teacher_id },
                            reselected,
                        )
                        &&& result == course_reselected(reselected)
                    },
                Err(failure) => result == Err::<CourseView, MyErrorView>(
                    MyErrorView::DBError(failure.message),
                ),
            }
        }
}

/// Updating the course `id` of `teacher_id` in `before` with `update`
/// gives `result` and leaves `after`.
pub open spec fn updates_course(
    before: Tables,
    teacher_id: i32,
    id: i32,
    update: UpdateCourseView,
    result: Result<CourseView, MyErrorView>,
    after: Tables,
) -> bool {
    exists|read: Result<Option<CourseView>, StoreFailureView>|
        {
            &&& #[trigger] before.gives_optional_course(
                StatementView::FindCourse { teacher_id, id },
                read,
            )
            &&& match read {
                Ok(Some(course)) => exists|written: Result<Seq<char>, StoreFailureView>|
                    {
                        &&& #[trigger] before.executes(
                            StatementView::UpdateCourse(
                                course.merged(update).under(teacher_id, id),
                            ),
                            written,
                            after,
                        )
                        &&& match written {
                            Ok(_) => reads_course(after, teacher_id, id, result),
                            Err(failure) => result == Err::<CourseView, MyErrorView>(
                                MyErrorView::DBError(failure.message),
                            ),
                        }
                    },
                Ok(None) => {
                    &&& after == before
                    &&& result == Err::<CourseView, MyErrorView>(
                        MyErrorView::NotFound("Course id not found"@),
                    )
                },
                Err(failure) => {
                    &&& after == before
                    &&& result == Err::<CourseView, MyErrorView>(
                        MyErrorView::DBError(failure.message),
                    )
                },
            }
        }
}

/// Deleting the course `id` of `teacher_id` from `before` gives `result`
/// and leaves `after`.
pub open spec fn deletes_course(
    before: Tables,
    teacher_id: i32,
    id: i32,
    result: Result<Seq<char>, MyErrorView>,
    after: Tables,
) -> bool {
    exists|reply: Result<Seq<char>, StoreFailureView>|
        {
            &&& #[trigger] before.executes(StatementView::DeleteCourse { teacher_id, id }, reply, after)
            &&& result == course_deletion_reported(reply)
        }
}

/// The course `id` is stored, and under another teacher than `teacher_id`.
pub open spec fn belongs_to_another(tables: Tables, teacher_id: i32, id: i32) -> bool {
    exists|k: int|
        0 <= k < tables.courses.len() && (#[trigger] tables.courses[k]).id == id
            && tables.courses[k].teacher_id != teacher_id
}

/// Where the course `id` belongs to another teacher, no course is stored
/// under `teacher_id` and `id` together.
proof fn lemma_another_owner(tables: Tables, teacher_id: i32, id: i32)
    requires
        tables.well_formed(),
        belongs_to_another(tables, teacher_id, id),
    ensures
        tables.courses.filter(course_is(teacher_id, id)) == Seq::<CourseView>::empty(),
        tables.courses.filter(course_is_not(teacher_id, id)) == tables.courses,
{
    let k = choose|k: int|
        0 <= k < tables.courses.len() && (#[trigger] tables.courses[k]).id == id
            && tables.courses[k].teacher_id != teacher_id;
    assert forall|i: int| 0 <= i < tables.courses.len() implies !((
    #[trigger] tables.courses[i]).teacher_id == teacher_id && tables.courses[i].id == id) by {
        if i != k && tables.courses[i].id == id {
            assert(tables.courses[k].id == id);
            assert(false);
        }
    }
    lemma_miss_course(tables.courses, teacher_id, id);
}

/// Listing succeeds on every table and gives exactly the courses of the
/// teacher asked for, in the table's order: none of another teacher, and
/// an empty list where the teacher has none.
pub proof fn listing_gives_the_teachers_own_courses(
    tables: Tables,
    teacher_id: i32,
    result: Result<Seq<CourseView>, MyErrorView>,
)
    requires
        lists_courses(tables, teacher_id, result),
    ensures
        result == Ok::<Seq<CourseView>, MyErrorView>(tables.courses.filter(course_of(teacher_id))),
        forall|i: int|
            0 <= i < result->Ok_0.len() ==> (#[trigger] result->Ok_0[i]).teacher_id == teacher_id,
{
    let sources = lemma_filter_sources(tables.courses, course_of(teacher_id));
}

/// Reading a course that is stored under the teacher and the id asked for
/// gives that course, and reading where none is stored under both gives
/// `NotFound`.
pub proof fn reading_gives_the_course_or_not_found(
    tables: Tables,
    teacher_id: i32,
    id: i32,
    result: Result<CourseView, MyErrorView>,
)
    requires
        tables.well_formed(),
        reads_course(tables, teacher_id, id, result),
    ensures
        forall|k: int|
            0 <= k < tables.courses.len() && (#[trigger] tables.courses[k]).id == id
                && tables.courses[k].teacher_id == teacher_id ==> result == Ok::<
                CourseView,
                MyErrorView,
            >(tables.courses[k]),
        (forall|k: int|
            0 <= k < tables.courses.len() ==> !((#[trigger] tables.courses[k]).id == id
                && tables.courses[k].teacher_id == teacher_id)) ==> result == Err::<
            CourseView,
            MyErrorView,
        >(MyErrorView::NotFound("Course id not found"@)),
{
    assert forall|k: int|
        0 <= k < tables.courses.len() && (#[trigger] tables.courses[k]).id == id
            && tables.courses[k].teacher_id == teacher_id implies result == Ok::<
        CourseView,
        MyErrorView,
    >(tables.courses[k]) by {
        lemma_find_course(tables.courses, k);
    }
    if forall|k: int|
        0 <= k < tables.courses.len() ==> !((#[trigger] tables.courses[k]).id == id
            && tables.courses[k].teacher_id == teacher_id) {
        lemma_miss_course(tables.courses, teacher_id, id);
    }
}

/// Reading a course through a teacher it does not belong to gives
/// `NotFound`.
pub proof fn reading_rejects_another_teachers_course(
    tables: Tables,
    teacher_id: i32,
    id: i32,
    result: Result<CourseView, MyErrorView>,
)
    requires
        tables.well_formed(),
        belongs_to_another(tables, teacher_id, id),
        reads_course(tables, teacher_id, id, result),
    ensures
        result == Err::<CourseView, MyErrorView>(MyErrorView::NotFound("Course id not found"@)),
{
    lemma_another_owner(tables, teacher_id, id);
}

/// Updating a course through a teacher it does not belong to gives
/// `NotFound` and changes nothing.
pub proof fn update_rejects_another_teachers_course(
    before: Tables,
    teacher_id: i32,
    id: i32,
    update: UpdateCourseView,
    result: Result<CourseView, MyErrorView>,
    after: Tables,
)
    requires
        before.well_formed(),
        belongs_to_another(before, teacher_id, id),
        updates_course(before, teacher_id, id, update, result, after),
    ensures
        result == Err::<CourseView, MyErrorView>(MyErrorView::NotFound("Course id not found"@)),
        after == before,
{
    lemma_another_owner(before, teacher_id, id);
}

/// Deleting a course through a teacher it does not belong to removes
/// nothing. Where the store carried the statement out, the report is a
/// text all the same: deletion does not say that nothing was there.
pub proof fn deletion_spares_another_teachers_course(
    before: Tables,
    teacher_id: i32,
    id: i32,
    result: Result<Seq<char>, MyErrorView>,
    after: Tables,
)
    requires
        before.well_formed(),
        belongs_to_another(before, teacher_id, id),
        deletes_course(before, teacher_id, id, result, after),
    ensures
        after == before,
        result matches Err(error) ==> error is DBError,
{
    lemma_another_owner(before, teacher_id, id);
}

/// Creation that succeeds has added one course, under an id above all that
/// were present, with the fields exactly as submitted, and gives that
/// course. Creation that fails has changed nothing.
pub proof fn creation_adds_the_submitted_course(
    before: Tables,
    new: CreateCourseView,
    result: Result<CourseView, MyErrorView>,
    after: Tables,
)
    requires
        before.well_formed(),
        creates_course(before, new, result, after),
    ensures
        after.well_formed(),
        match result {
            Ok(created) => {
                &&& created == new.with_id(created.id)
                &&& before.assigns_course(created.id)
                &&& after == before.with_course(new, created.id)
            },
            Err(_) => after == before,
        },
{
    if before.writes(StatementView::InsertCourse(new), after) {
        lemma_writes_keep_keys(before, StatementView::InsertCourse(new), after);
        let id = choose|id: i32|
            before.assigns_course(id) && after == #[trigger] before.with_course(new, id);
        let own = course_of(new.teacher_id);
        let added = new.with_id(id);
        before.courses.lemma_filter_push(added, own);
        let earlier = before.courses.filter(own);
        let sources = lemma_filter_sources(before.courses, own);
        let rows = after.courses.filter(own);
        assert(rows == earlier.push(added));
        let last = rows.len() - 1;
        assert(rows[last] == added);
        assert forall|j: int| 0 <= j < rows.len() implies (#[trigger] rows[j]).id
            <= rows[last].id by {
            if j < last {
                assert(rows[j] == before.courses[sources[j]]);
            }
        }
        assert(greatest_course_at(rows, last));
        let top = choose|i: int| greatest_course_at(rows, i);
        if top < last {
            assert(rows[top] == before.courses[sources[top]]);
            assert(rows[last].id <= rows[top].id);
        }
        assert(top == last);
    }
}

/// A course that was created is read back under its teacher and its id
/// with the fields exactly as they were submitted.
pub proof fn created_course_is_read_back(
    before: Tables,
    new: CreateCourseView,
    created: CourseView,
    after: Tables,
    found: Result<CourseView, MyErrorView>,
)
    requires
        before.well_formed(),
        creates_course(before, new, Ok(created), after),
        reads_course(after, new.teacher_id, created.id, found),
    ensures
        created == new.with_id(created.id),
        found == Ok::<CourseView, MyErrorView>(created),
{
    creation_adds_the_submitted_course(before, new, Ok(created), after);
    reading_gives_the_course_or_not_found(after, new.teacher_id, created.id, found);
    let last = after.courses.len() - 1;
    assert(after.courses[last] == created);
}

/// An update that succeeds has found exactly one course under the teacher
/// and the id, gives that course with each submitted field in place of the
/// stored one and every other field as it was stored, a null column null,
/// and has written just that into that row: the keys are as they were,
/// every other row is as it was, and no row has come or gone.
pub proof fn update_lays_submitted_fields_over(
    before: Tables,
    teacher_id: i32,
    id: i32,
    update: UpdateCourseView,
    updated: CourseView,
    after: Tables,
)
    requires
        before.well_formed(),
        updates_course(before, teacher_id, id, update, Ok(updated), after),
    ensures
        after.well_formed(),
        before.course_rows(StatementView::FindCourse { teacher_id, id }).len() == 1,
        ({
            let stored = before.course_rows(StatementView::FindCourse { teacher_id, id })[0];
            &&& stored.teacher_id == teacher_id
            &&& stored.id == id
            &&& updated == stored.merged(update)
            &&& updated.teacher_id == teacher_id
            &&& updated.id == id
            &&& update.name is Some ==> updated.name == update.name.unwrap()
            &&& update.name is None ==> updated.name == stored.name
            &&& update.description is Some ==> updated.description == update.description
            &&& update.description is None ==> updated.description == stored.description
            &&& update.format is Some ==> updated.format == update.format
            &&& update.format is None ==> updated.format == stored.format
            &&& update.structure is Some ==> updated.structure == update.structure
            &&& update.structure is None ==> updated.structure == stored.structure
            &&& update.duration is Some ==> updated.duration == update.duration
            &&& update.duration is None ==> updated.duration == stored.duration
            &&& update.price is Some ==> updated.price == update.price
            &&& update.price is None ==> updated.price == stored.price
            &&& update.language is Some ==> updated.language == update.language
            &&& update.language is None ==> updated.language == stored.language
            &&& update.level is Some ==> updated.level == update.level
            &&& update.level is None ==> updated.level == stored.level
        }),
        after.teachers == before.teachers,
        after.courses.len() == before.courses.len(),
        forall|i: int|
            0 <= i < before.courses.len() ==> #[trigger] after.courses[i] == if before.courses[i].id
                == id {
                updated
            } else {
                before.courses[i]
            },
{
    let read = choose|read: Result<Option<CourseView>, StoreFailureView>|
        {
            &&& #[trigger] before.gives_optional_course(
                StatementView::FindCourse { teacher_id, id },
                read,
            )
            &&& read matches Ok(Some(_))
        };
    let stored = read->Ok_0->Some_0;
    let sources = lemma_filter_sources(before.courses, course_is(teacher_id, id));
    let k = sources[0];
    assert(before.courses[k] == stored);
    lemma_find_course(before.courses, k);
    let written = stored.merged(update).under(teacher_id, id);
    lemma_writes_keep_keys(before, StatementView::UpdateCourse(written), after);
    assert(after.courses[k] == written);
    lemma_find_course(after.courses, k);
    assert forall|i: int| 0 <= i < before.courses.len() implies #[trigger] after.courses[i]
        == if before.courses[i].id == id {
        updated
    } else {
        before.courses[i]
    } by {
        if i != k && before.courses[i].id == id {
            assert(before.courses[k].id == id);
        }
    }
}

/// An update where no course is stored under the teacher and the id
/// together gives `NotFound` and changes nothing.
pub proof fn update_of_an_absent_course_changes_nothing(
    before: Tables,
    teacher_id: i32,
    id: i32,
    update: UpdateCourseView,
    result: Result<CourseView, MyErrorView>,
    after: Tables,
)
    requires
        forall|k: int|
            0 <= k < before.courses.len() ==> !((#[trigger] before.courses[k]).teacher_id
                == teacher_id && before.courses[k].id == id),
        updates_course(before, teacher_id, id, update, result, after),
    ensures
        result == Err::<CourseView, MyErrorView>(MyErrorView::NotFound("Course id not found"@)),
        after == before,
{
    lemma_miss_course(before.courses, teacher_id, id);
}

/// Deletion that the store carries out reports success whether or not a
/// course was there, and removes the courses under the teacher and the id
/// together and no others. Deletion that the store refuses gives `DBError`
/// and changes nothing. The teachers are as they were either way.
pub proof fn deletion_removes_the_course_only(
    before: Tables,
    teacher_id: i32,
    id: i32,
    result: Result<Seq<char>, MyErrorView>,
    after: Tables,
)
    requires
        before.well_formed(),
        deletes_course(before, teacher_id, id, result, after),
    ensures
        after.well_formed(),
        after.teachers == before.teachers,
        result is Ok ==> after.courses == before.courses.filter(course_is_not(teacher_id, id)),
        result matches Err(error) ==> after == before && error is DBError,
{
    if result is Ok {
        lemma_writes_keep_keys(before, StatementView::DeleteCourse { teacher_id, id }, after);
    }
}

/// After a deletion that succeeds, reading the same course gives
/// `NotFound`.
pub proof fn deleted_course_is_not_found(
    before: Tables,
    teacher_id: i32,
    id: i32,
    message: Seq<char>,
    after: Tables,
    found: Result<CourseView, MyErrorView>,
)
    requires
        deletes_course(before, teacher_id, id, Ok(message), after),
        reads_course(after, teacher_id, id, found),
    ensures
        found == Err::<CourseView, MyErrorView>(MyErrorView::NotFound("Course id not found"@)),
{
    let sources = lemma_filter_sources(before.courses, course_is_not(teacher_id, id));
    assert forall|k: int| 0 <= k < after.courses.len() implies !((
    #[trigger] after.courses[k]).teacher_id == teacher_id && after.courses[k].id == id) by {
        assert(after.courses[k] == before.courses[sources[k]]);
    }
    lemma_miss_course(after.courses, teacher_id, id);
}

/// What `get_course_for_teacher_db` and its `finish` give, for the
/// store's reply to the statement asked, is a listing of the tables.
pub proof fn get_course_for_teacher_db_lists_courses(
    tables: Tables,
    teacher_id: i32,
    listing: CourseListing,
    reply: Result<Vec<Course>, StoreFailure>,
    result: Result<Vec<Course>, MyError>,
)
    requires
        listing.statement@ == (StatementView::ListCourses { teacher_id }),
        tables.gives_courses(listing.statement@, outcome(reply)),
        outcome(result) == courses_listed(outcome(reply)),
    ensures
        lists_courses(tables, teacher_id, outcome(result)),
{
}

/// What `get_course_detail_db` and its `finish` give, for the store's
/// reply to the statement asked, is a reading of the tables.
pub proof fn get_course_detail_db_reads_course(
    tables: Tables,
    teacher_id: i32,
    course_id: i32,
    lookup: CourseLookup,
    reply: Result<Option<Course>, StoreFailure>,
    result: Result<Course, MyError>,
)
    requires
        lookup.statement@ == (StatementView::FindCourse { teacher_id, id: course_id }),
        tables.gives_optional_course(lookup.statement@, outcome(reply)),
        outcome(result) == course_looked_up(outcome(reply)),
    ensures
        reads_course(tables, teacher_id, course_id, outcome(result)),
{
}

/// What `post_new_course_db`, `resume` and `finish` give, for the store's
/// replies to the statements asked, is a creation: where `resume` ends
/// the operation, its failure is the result.
pub proof fn post_new_course_db_creates_course(
    before: Tables,
    new_course: CreateCourse,
    insertion: CourseInsertion,
    inserted: Result<String, StoreFailure>,
    next: Result<CourseReselection, MyError>,
    reselected: Result<Course, StoreFailure>,
    result: Result<Course, MyError>,
    after: Tables,
)
    requires
        insertion.statement@ == StatementView::InsertCourse(new_course@),
        insertion.teacher_id == new_course.teacher_id,
        before.executes(insertion.statement@, outcome(inserted), after),
        match outcome(inserted) {
            Ok(_) => next matches Ok(reselection) && reselection.statement@ == (
            StatementView::LastCourse { teacher_id: insertion.teacher_id }),
            Err(failure) => next matches Err(error) && error@ == MyErrorView::DBError(
                failure.message,
            ),
        },
        match next {
            Ok(reselection) => {
                &&& after.gives_one_course(reselection.statement@, outcome(reselected))
                &&& outcome(result) == course_reselected(outcome(reselected))
            },
            Err(error) => outcome(result) == Err::<CourseView, MyErrorView>(error@),
        },
    ensures
        creates_course(before, new_course@, outcome(result), after),
{
}

/// What `update_course_detail_db`, the two `resume` and `finish` give, for
/// the store's replies to the statements asked, is an update: where a
/// `resume` ends the operation, its failure is the result, and nothing
/// was written unless the writing was asked for.
pub proof fn update_course_detail_db_updates_course(
    before: Tables,
    teacher_id: i32,
    id: i32,
    update: UpdateCourseView,
    revision: CourseRevision,
    read: Result<Option<Course>, StoreFailure>,
    rewritten: Result<CourseRewrite, MyError>,
    written: Result<String, StoreFailure>,
    reread_asked: Result<CourseLookup, MyError>,
    reread: Result<Option<Course>, StoreFailure>,
    result: Result<Course, MyError>,
    after: Tables,
)
    requires
        revision.statement@ == (StatementView::FindCourse { teacher_id, id }),
        revision.teacher_id == teacher_id,
        revision.id == id,
        revision.update@ == update,
        before.gives_optional_course(revision.statement@, outcome(read)),
        match outcome(read) {
            Ok(Some(course)) => rewritten matches Ok(rewrite) && rewrite.teacher_id
                == revision.teacher_id && rewrite.id == revision.id && rewrite.statement@
                == StatementView::UpdateCourse(
                course.merged(revision.update@).under(revision.teacher_id, revision.id),
            ),
            Ok(None) => rewritten matches Err(error) && error@ == MyErrorView::NotFound(
                "Course id not found"@,
            ),
            Err(failure) => rewritten matches Err(error) && error@ == MyErrorView::DBError(
                failure.message,
            ),
        },
        match rewritten {
            Ok(rewrite) => {
                &&& before.executes(rewrite.statement@, outcome(written), after)
                &&& match outcome(written) {
                    Ok(_) => reread_asked matches Ok(lookup) && lookup.statement@ == (
                    StatementView::FindCourse { teacher_id: rewrite.teacher_id, id: rewrite.id }),
                    Err(failure) => reread_asked matches Err(error) && error@
                        == MyErrorView::DBError(failure.message),
                }
                &&& match reread_asked {
                    Ok(lookup) => {
                        &&& after.gives_optional_course(lookup.statement@, outcome(reread))
                        &&& outcome(result) == course_looked_up(outcome(reread))
                    },
                    Err(error) => outcome(result) == Err::<CourseView, MyErrorView>(error@),
                }
            },
            Err(error) => {
                &&& after == before
                &&& outcome(result) == Err::<CourseView, MyErrorView>(error@)
            },
        },
    ensures
        updates_course(before, teacher_id, id, update, outcome(result), after),
{
    if rewritten is Ok && reread_asked is Ok {
        assert(reads_course(after, teacher_id, id, outcome(result)));
    }
}

/// What `delete_course_db` and its `finish` give, for the store's reply to
/// the statement asked, is a deletion.
pub proof fn delete_course_db_deletes_course(
    before: Tables,
    teacher_id: i32,
    id: i32,
    deletion: CourseDeletion,
    reply: Result<String, StoreFailure>,
    result: Result<String, MyError>,
    after: Tables,
)
    requires
        deletion.statement@ == (StatementView::DeleteCourse { teacher_id, id }),
        before.executes(deletion.statement@, outcome(reply), after),
        outcome(result) == course_deletion_reported(outcome(reply)),
    ensures
        deletes_course(before, teacher_id, id, outcome(result), after),
{
}

} // verus!
