//! A mathematical model of the store: its two tables, what each statement
//! fetches from them or does to them, and how the store answers.
//!
//! The model describes a store that keeps its keys unique, assigns every
//! new row a key above all present ones, reads without failing, and either
//! carries a write out or refuses it and leaves the tables as they were.

use crate::models::course::{CourseView, CreateCourseView};
use crate::models::teacher::{CreateTeacherView, TeacherRowView, TeacherView};
use crate::seq_facts::{
    lemma_filter_everything,
    lemma_filter_nothing,
    lemma_filter_single,
    lemma_filter_sources,
};
use crate::store::{StatementView, StoreFailureView};
use vstd::prelude::*;

verus! {

/// The teacher rows with this id.
pub open spec fn teacher_is(id: i32) -> spec_fn(TeacherRowView) -> bool {
    |row: TeacherRowView| row.id == id
}

/// The teacher rows with any other id.
pub open spec fn teacher_is_not(id: i32) -> spec_fn(TeacherRowView) -> bool {
    |row: TeacherRowView| row.id != id
}

/// The courses of this teacher.
pub open spec fn course_of(teacher_id: i32) -> spec_fn(CourseView) -> bool {
    |course: CourseView| course.teacher_id == teacher_id
}

/// The courses with this id that belong to this teacher.
pub open spec fn course_is(teacher_id: i32, id: i32) -> spec_fn(CourseView) -> bool {
    |course: CourseView| course.teacher_id == teacher_id && course.id == id
}

/// The courses that have another id or belong to another teacher.
pub open spec fn course_is_not(teacher_id: i32, id: i32) -> spec_fn(CourseView) -> bool {
    |course: CourseView| !(course.teacher_id == teacher_id && course.id == id)
}

/// What an update makes of each teacher row: the row with the written id
/// takes the written columns, every other row stays.
pub open spec fn teacher_rewritten(written: TeacherView) -> spec_fn(TeacherRowView)
    -> TeacherRowView {
    |row: TeacherRowView|
        if row.id == written.id {
            written.row()
        } else {
            row
        }
}

/// What an update makes of each course: the course with the written id
/// takes the written columns if it belongs to the written teacher, every
/// other course stays.
pub open spec fn course_rewritten(written: CourseView) -> spec_fn(CourseView) -> CourseView {
    |course: CourseView|
        if course.teacher_id == written.teacher_id && course.id == written.id {
            written
        } else {
            course
        }
}

/// The row at `i` has the greatest id among `rows`.
pub open spec fn greatest_teacher_at(rows: Seq<TeacherRowView>, i: int) -> bool {
    &&& 0 <= i < rows.len()
    &&& forall|j: int| 0 <= j < rows.len() ==> (#[trigger] rows[j]).id <= rows[i].id
}

/// The course at `i` has the greatest id among `rows`.
pub open spec fn greatest_course_at(rows: Seq<CourseView>, i: int) -> bool {
    &&& 0 <= i < rows.len()
    &&& forall|j: int| 0 <= j < rows.len() ==> (#[trigger] rows[j]).id <= rows[i].id
}

/// At most the row with the greatest id.
pub open spec fn last_teacher(rows: Seq<TeacherRowView>) -> Seq<TeacherRowView> {
    if rows.len() == 0 {
        Seq::empty()
    } else {
        seq![rows[choose|i: int| greatest_teacher_at(rows, i)]]
    }
}

/// At most the course with the greatest id.
pub open spec fn last_course(rows: Seq<CourseView>) -> Seq<CourseView> {
    if rows.len() == 0 {
        Seq::empty()
    } else {
        seq![rows[choose|i: int| greatest_course_at(rows, i)]]
    }
}

/// No two teacher rows share an id.
pub open spec fn distinct_teachers(rows: Seq<TeacherRowView>) -> bool {
    forall|i: int, j: int|
        0 <= i < j < rows.len() ==> (#[trigger] rows[i]).id != (#[trigger] rows[j]).id
}

/// No two courses share an id.
pub open spec fn distinct_courses(rows: Seq<CourseView>) -> bool {
    forall|i: int, j: int|
        0 <= i < j < rows.len() ==> (#[trigger] rows[i]).id != (#[trigger] rows[j]).id
}

/// The two tables, each in the store's own order.
pub struct Tables {
    pub teachers: Seq<TeacherRowView>,
    pub courses: Seq<CourseView>,
}

impl Tables {
    /// The id is a key in either table.
    pub open spec fn well_formed(self) -> bool {
        distinct_teachers(self.teachers) && distinct_courses(self.courses)
    }

    /// The teacher rows that a statement fetches, in the order in which
    /// the store returns them.
    pub open spec fn teacher_rows(self, statement: StatementView) -> Seq<TeacherRowView> {
        match statement {
            StatementView::ListTeachers => self.teachers,
            StatementView::FindTeacher { id } => self.teachers.filter(teacher_is(id)),
            StatementView::LastTeacher => last_teacher(self.teachers),
            _ => Seq::empty(),
        }
    }

    /// The courses that a statement fetches, in the order in which the
    /// store returns them.
    pub open spec fn course_rows(self, statement: StatementView) -> Seq<CourseView> {
        match statement {
            StatementView::ListCourses { teacher_id } => self.courses.filter(course_of(teacher_id)),
            StatementView::FindCourse { teacher_id, id } => self.courses.filter(
                course_is(teacher_id, id),
            ),
            StatementView::LastCourse { teacher_id } => last_course(
                self.courses.filter(course_of(teacher_id)),
            ),
            _ => Seq::empty(),
        }
    }

    /// The store may give this id to a new teacher: it lies above all that
    /// are present.
    pub open spec fn assigns_teacher(self, id: i32) -> bool {
        forall|i: int| 0 <= i < self.teachers.len() ==> (#[trigger] self.teachers[i]).id < id
    }

    /// The store may give this id to a new course: it lies above all that
    /// are present.
    pub open spec fn assigns_course(self, id: i32) -> bool {
        forall|i: int| 0 <= i < self.courses.len() ==> (#[trigger] self.courses[i]).id < id
    }

    /// The tables with a new teacher under `id`.
    pub open spec fn with_teacher(self, new: CreateTeacherView, id: i32) -> Tables {
        Tables { teachers: self.teachers.push(new.with_id(id).row()), courses: self.courses }
    }

    /// The tables with a new course under `id`.
    pub open spec fn with_course(self, new: CreateCourseView, id: i32) -> Tables {
        Tables { teachers: self.teachers, courses: self.courses.push(new.with_id(id)) }
    }

    /// `after` is what a statement that the store carried out makes of
    /// these tables. A statement that only fetches leaves them as they are.
    pub open spec fn writes(self, statement: StatementView, after: Tables) -> bool {
        match statement {
            StatementView::InsertTeacher(new) => exists|id: i32|
                self.assigns_teacher(id) && after == #[trigger] self.with_teacher(new, id),
            StatementView::UpdateTeacher(written) => after == Tables {
                teachers: self.teachers.map_values(teacher_rewritten(written)),
                courses: self.courses,
            },
            StatementView::DeleteTeacher { id } => after == Tables {
                teachers: self.teachers.filter(teacher_is_not(id)),
                courses: self.courses,
            },
            StatementView::InsertCourse(new) => exists|id: i32|
                self.assigns_course(id) && after == #[trigger] self.with_course(new, id),
            StatementView::UpdateCourse(written) => after == Tables {
                teachers: self.teachers,
                courses: self.courses.map_values(course_rewritten(written)),
            },
            StatementView::DeleteCourse { teacher_id, id } => after == Tables {
                teachers: self.teachers,
                courses: self.courses.filter(course_is_not(teacher_id, id)),
            },
            _ => after == self,
        }
    }

    /// The store's answer to a statement that is run for all its teacher
    /// rows.
    pub open spec fn gives_teachers(
        self,
        statement: StatementView,
        reply: Result<Seq<TeacherRowView>, StoreFailureView>,
    ) -> bool {
        reply == Ok::<Seq<TeacherRowView>, StoreFailureView>(self.teacher_rows(statement))
    }

    /// The store's answer to a statement that is run for exactly one
    /// teacher row: the first row, or a failure where there is none.
    pub open spec fn gives_one_teacher(
        self,
        statement: StatementView,
        reply: Result<TeacherRowView, StoreFailureView>,
    ) -> bool {
        let rows = self.teacher_rows(statement);
        if rows.len() == 0 {
            reply is Err
        } else {
            reply == Ok::<TeacherRowView, StoreFailureView>(rows[0])
        }
    }

    /// The store's answer to a statement that is run for at most one
    /// teacher row: the first row, or none.
    pub open spec fn gives_optional_teacher(
        self,
        statement: StatementView,
        reply: Result<Option<TeacherRowView>, StoreFailureView>,
    ) -> bool {
        let rows = self.teacher_rows(statement);
        if rows.len() == 0 {
            reply == Ok::<Option<TeacherRowView>, StoreFailureView>(None)
        } else {
            reply == Ok::<Option<TeacherRowView>, StoreFailureView>(Some(rows[0]))
        }
    }

    /// The store's answer to a statement that is run for all its courses.
    pub open spec fn gives_courses(
        self,
        statement: StatementView,
        reply: Result<Seq<CourseView>, StoreFailureView>,
    ) -> bool {
        reply == Ok::<Seq<CourseView>, StoreFailureView>(self.course_rows(statement))
    }

    /// The store's answer to a statement that is run for exactly one
    /// course: the first one, or a failure where there is none.
    pub open spec fn gives_one_course(
        self,
        statement: StatementView,
        reply: Result<CourseView, StoreFailureView>,
    ) -> bool {
        let rows = self.course_rows(statement);
        if rows.len() == 0 {
            reply is Err
        } else {
            reply == Ok::<CourseView, StoreFailureView>(rows[0])
        }
    }

    /// The store's answer to a statement that is run for at most one
    /// course: the first one, or none.
    pub open spec fn gives_optional_course(
        self,
        statement: StatementView,
        reply: Result<Option<CourseView>, StoreFailureView>,
    ) -> bool {
        let rows = self.course_rows(statement);
        if rows.len() == 0 {
            reply == Ok::<Option<CourseView>, StoreFailureView>(None)
        } else {
            reply == Ok::<Option<CourseView>, StoreFailureView>(Some(rows[0]))
        }
    }

    /// The store's answer to a writing statement, and the tables that it
    /// leaves: either it carries the statement out, or it refuses and
    /// nothing changes.
    pub open spec fn executes(
        self,
        statement: StatementView,
        reply: Result<Seq<char>, StoreFailureView>,
        after: Tables,
    ) -> bool {
        if reply is Ok {
            self.writes(statement, after)
        } else {
            after == self
        }
    }
}

/// Among rows with distinct ids, looking for an id that the row at `k`
/// has fetches that row alone.
pub proof fn lemma_find_teacher(rows: Seq<TeacherRowView>, k: int)
    requires
        distinct_teachers(rows),
        0 <= k < rows.len(),
    ensures
        rows.filter(teacher_is(rows[k].id)) == seq![rows[k]],
{
    lemma_filter_single(rows, teacher_is(rows[k].id), k);
}

/// Looking for an id that no row has fetches nothing.
pub proof fn lemma_miss_teacher(rows: Seq<TeacherRowView>, id: i32)
    requires
        forall|i: int| 0 <= i < rows.len() ==> (#[trigger] rows[i]).id != id,
    ensures
        rows.filter(teacher_is(id)) == Seq::<TeacherRowView>::empty(),
{
    lemma_filter_nothing(rows, teacher_is(id));
}

/// Among courses with distinct ids, looking for the id and the teacher
/// that the course at `k` has fetches that course alone.
pub proof fn lemma_find_course(rows: Seq<CourseView>, k: int)
    requires
        distinct_courses(rows),
        0 <= k < rows.len(),
    ensures
        rows.filter(course_is(rows[k].teacher_id, rows[k].id)) == seq![rows[k]],
{
    lemma_filter_single(rows, course_is(rows[k].teacher_id, rows[k].id), k);
}

/// Looking for a course under an id and a teacher that no course has
/// together fetches nothing, and removing it removes nothing.
pub proof fn lemma_miss_course(rows: Seq<CourseView>, teacher_id: i32, id: i32)
    requires
        forall|i: int|
            0 <= i < rows.len() ==> !((#[trigger] rows[i]).teacher_id == teacher_id && rows[i].id
                == id),
    ensures
        rows.filter(course_is(teacher_id, id)) == Seq::<CourseView>::empty(),
        rows.filter(course_is_not(teacher_id, id)) == rows,
{
    lemma_filter_nothing(rows, course_is(teacher_id, id));
    lemma_filter_everything(rows, course_is_not(teacher_id, id));
}

/// A selection from teacher rows with distinct ids has distinct ids.
pub proof fn lemma_selected_teachers_distinct(
    rows: Seq<TeacherRowView>,
    pred: spec_fn(TeacherRowView) -> bool,
)
    requires
        distinct_teachers(rows),
    ensures
        distinct_teachers(rows.filter(pred)),
{
    let sources = lemma_filter_sources(rows, pred);
    let selected = rows.filter(pred);
    assert forall|i: int, j: int| 0 <= i < j < selected.len() implies (#[trigger] selected[i]).id
        != (#[trigger] selected[j]).id by {
        assert(sources[i] < sources[j]);
        assert(selected[i] == rows[sources[i]]);
        assert(selected[j] == rows[sources[j]]);
    }
}

/// A selection from courses with distinct ids has distinct ids.
pub proof fn lemma_selected_courses_distinct(
    rows: Seq<CourseView>,
    pred: spec_fn(CourseView) -> bool,
)
    requires
        distinct_courses(rows),
    ensures
        distinct_courses(rows.filter(pred)),
{
    let sources = lemma_filter_sources(rows, pred);
    let selected = rows.filter(pred);
    assert forall|i: int, j: int| 0 <= i < j < selected.len() implies (#[trigger] selected[i]).id
        != (#[trigger] selected[j]).id by {
        assert(sources[i] < sources[j]);
        assert(selected[i] == rows[sources[i]]);
        assert(selected[j] == rows[sources[j]]);
    }
}

/// Every statement that the store carries out leaves the ids unique.
pub proof fn lemma_writes_keep_keys(before: Tables, statement: StatementView, after: Tables)
    requires
        before.well_formed(),
        before.writes(statement, after),
    ensures
        after.well_formed(),
{
    match statement {
        StatementView::InsertTeacher(new) => {
            let id = choose|id: i32|
                before.assigns_teacher(id) && after == #[trigger] before.with_teacher(new, id);
            assert forall|i: int, j: int| 0 <= i < j < after.teachers.len() implies (
            #[trigger] after.teachers[i]).id != (#[trigger] after.teachers[j]).id by {
                assert(after.teachers[i] == before.teachers[i]);
                if j < before.teachers.len() {
                    assert(after.teachers[j] == before.teachers[j]);
                }
            }
        },
        StatementView::UpdateTeacher(written) => {
            assert forall|i: int, j: int| 0 <= i < j < after.teachers.len() implies (
            #[trigger] after.teachers[i]).id != (#[trigger] after.teachers[j]).id by {
                assert(after.teachers[i].id == before.teachers[i].id);
                assert(after.teachers[j].id == before.teachers[j].id);
            }
        },
        StatementView::DeleteTeacher { id } => {
            lemma_selected_teachers_distinct(before.teachers, teacher_is_not(id));
        },
        StatementView::InsertCourse(new) => {
            let id = choose|id: i32|
                before.assigns_course(id) && after == #[trigger] before.with_course(new, id);
            assert forall|i: int, j: int| 0 <= i < j < after.courses.len() implies (
            #[trigger] after.courses[i]).id != (#[trigger] after.courses[j]).id by {
                assert(after.courses[i] == before.courses[i]);
                if j < before.courses.len() {
                    assert(after.courses[j] == before.courses[j]);
                }
            }
        },
        StatementView::UpdateCourse(written) => {
            assert forall|i: int, j: int| 0 <= i < j < after.courses.len() implies (
            #[trigger] after.courses[i]).id != (#[trigger] after.courses[j]).id by {
                assert(after.courses[i].id == before.courses[i].id);
                assert(after.courses[j].id == before.courses[j].id);
            }
        },
        StatementView::DeleteCourse { teacher_id, id } => {
            lemma_selected_courses_distinct(before.courses, course_is_not(teacher_id, id));
        },
        _ => {},
    }
}

} // verus!
