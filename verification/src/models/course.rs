//! Courses: the stored record and the inputs of creation and of partial
//! update. A course belongs to exactly one teacher.

use vstd::prelude::*;

verus! {

/// A course as the store holds it and as the service hands it out. Only
/// the two keys and the name are always present.
#[derive(Debug, Clone, PartialEq, Eq)]
pub struct Course {
    pub teacher_id: i32,
    pub id: i32,
    pub name: String,
    pub description: Option<String>,
    pub format: Option<String>,
    pub structure: Option<String>,
    pub duration: Option<String>,
    pub price: Option<i32>,
    pub language: Option<String>,
    pub level: Option<String>,
}

/// The mathematical form of [`Course`].
pub struct CourseView {
    pub teacher_id: i32,
    pub id: i32,
    pub name: Seq<char>,
    pub description: Option<Seq<char>>,
    pub format: Option<Seq<char>>,
    pub structure: Option<Seq<char>>,
    pub duration: Option<Seq<char>>,
    pub price: Option<i32>,
    pub language: Option<Seq<char>>,
    pub level: Option<Seq<char>>,
}

impl View for Course {
    type V = CourseView;

    open spec fn view(&self) -> CourseView {
        CourseView {
            teacher_id: self.teacher_id,
            id: self.id,
            name: self.name@,
            description: self.description.deep_view(),
            format: self.format.deep_view(),
            structure: self.structure.deep_view(),
            duration: self.duration.deep_view(),
            price: self.price,
            language: self.language.deep_view(),
            level: self.level.deep_view(),
        }
    }
}

impl DeepView for Course {
    type V = CourseView;

    open spec fn deep_view(&self) -> CourseView {
        self@
    }
}

/// What a caller submits to create a course. The store assigns the id.
#[derive(Debug, Clone, PartialEq, Eq)]
pub struct CreateCourse {
    pub teacher_id: i32,
    pub name: String,
    pub description: Option<String>,
    pub format: Option<String>,
    pub structure: Option<String>,
    pub duration: Option<String>,
    pub price: Option<i32>,
    pub language: Option<String>,
    pub level: Option<String>,
}

/// The mathematical form of [`CreateCourse`].
pub struct CreateCourseView {
    pub teacher_id: i32,
    pub name: Seq<char>,
    pub description: Option<Seq<char>>,
    pub format: Option<Seq<char>>,
    pub structure: Option<Seq<char>>,
    pub duration: Option<Seq<char>>,
    pub price: Option<i32>,
    pub language: Option<Seq<char>>,
    pub level: Option<Seq<char>>,
}

impl View for CreateCourse {
    type V = CreateCourseView;

    open spec fn view(&self) -> CreateCourseView {
        CreateCourseView {
            teacher_id: self.teacher_id,
            name: self.name@,
            description: self.description.deep_view(),
            format: self.format.deep_view(),
            structure: self.structure.deep_view(),
            duration: self.duration.deep_view(),
            price: self.price,
            language: self.language.deep_view(),
            level: self.level.deep_view(),
        }
    }
}

/// A partial update of a course: an absent field is left as it is, a
/// present one replaces the stored value. The two keys cannot be changed.
#[derive(Debug, Clone, PartialEq, Eq)]
pub struct UpdateCourse {
    pub name: Option<String>,
    pub description: Option<String>,
    pub format: Option<String>,
    pub structure: Option<String>,
    pub duration: Option<String>,
    pub price: Option<i32>,
    pub language: Option<String>,
    pub level: Option<String>,
}

/// The mathematical form of [`UpdateCourse`].
pub struct UpdateCourseView {
    pub name: Option<Seq<char>>,
    pub description: Option<Seq<char>>,
    pub format: Option<Seq<char>>,
    pub structure: Option<Seq<char>>,
    pub duration: Option<Seq<char>>,
    pub price: Option<i32>,
    pub language: Option<Seq<char>>,
    pub level: Option<Seq<char>>,
}

impl View for UpdateCourse {
    type V = UpdateCourseView;

    open spec fn view(&self) -> UpdateCourseView {
        UpdateCourseView {
            name: self.name.deep_view(),
            description: self.description.deep_view(),
            format: self.format.deep_view(),
            structure: self.structure.deep_view(),
            duration: self.duration.deep_view(),
            price: self.price,
            language: self.language.deep_view(),
            level: self.level.deep_view(),
        }
    }
}

/// What an update leaves in an optional column: the submitted value where
/// there is one, else what was stored, be it nothing.
pub open spec fn laid_over<T>(stored: Option<T>, submitted: Option<T>) -> Option<T> {
    match submitted {
        Some(value) => Some(value),
        None => stored,
    }
}

impl CreateCourseView {
    /// The course that comes of this submission once the store has
    /// assigned `id`.
    pub open spec fn with_id(self, id: i32) -> CourseView {
        CourseView {
            teacher_id: self.teacher_id,
            id,
            name: self.name,
            description: self.description,
            format: self.format,
            structure: self.structure,
            duration: self.duration,
            price: self.price,
            language: self.language,
            level: self.level,
        }
    }
}

impl CourseView {
    /// The same course under other keys.
    pub open spec fn under(self, teacher_id: i32, id: i32) -> CourseView {
        CourseView {
            teacher_id,
            id,
            name: self.name,
            description: self.description,
            format: self.format,
            structure: self.structure,
            duration: self.duration,
            price: self.price,
            language: self.language,
            level: self.level,
        }
    }

    /// The course with the fields of `update` laid over it. The keys stay.
    /// A field that `update` holds replaces the stored one; a field that
    /// it leaves open stays as it is stored, a null column null.
    pub open spec fn merged(self, update: UpdateCourseView) -> CourseView {
        CourseView {
            teacher_id: self.teacher_id,
            id: self.id,
            name: match update.name {
                Some(name) => name,
                None => self.name,
            },
            description: laid_over(self.description, update.description),
            format: laid_over(self.format, update.format),
            structure: laid_over(self.structure, update.structure),
            duration: laid_over(self.duration, update.duration),
            price: laid_over(self.price, update.price),
            language: laid_over(self.language, update.language),
            level: laid_over(self.level, update.level),
        }
    }
}

fn lay_over<T>(stored: Option<T>, submitted: Option<T>) -> (value: Option<T>)
    ensures
        value == laid_over(stored, submitted),
{
    match submitted {
        Some(value) => Some(value),
        None => stored,
    }
}

impl Course {
    /// Lays a partial update over the stored course. The keys stay; a field
    /// that `update` holds replaces the stored one; a field that it leaves
    /// open stays as it is stored, a null column null.
    pub fn merged(current: Course, update: UpdateCourse) -> (course: Course)
        ensures
            course@ == current@.merged(update@),
            course@.teacher_id == current@.teacher_id,
            course@.id == current@.id,
            update@.name is Some ==> course@.name == update@.name.unwrap(),
            update@.name is None ==> course@.name == current@.name,
            update@.description is Some ==> course@.description == update@.description,
            update@.description is None ==> course@.description == current@.description,
            update@.format is Some ==> course@.format == update@.format,
            update@.format is None ==> course@.format == current@.format,
            update@.structure is Some ==> course@.structure == update@.structure,
            update@.structure is None ==> course@.structure == current@.structure,
            update@.duration is Some ==> course@.duration == update@.duration,
            update@.duration is None ==> course@.duration == current@.duration,
            update@.price is Some ==> course@.price == update@.price,
            update@.price is None ==> course@.price == current@.price,
            update@.language is Some ==> course@.language == update@.language,
            update@.language is None ==> course@.language == current@.language,
            update@.level is Some ==> course@.level == update@.level,
            update@.level is None ==> course@.level == current@.level,
    {
        let name = match update.name {
            Some(name) => name,
            None => current.name,
        };
        Course {
            teacher_id: current.teacher_id,
            id: current.id,
            name,
            description: lay_over(current.description, update.description),
            format: lay_over(current.format, update.format),
            structure: lay_over(current.structure, update.structure),
            duration: lay_over(current.duration, update.duration),
            price: lay_over(current.price, update.price),
            language: lay_over(current.language, update.language),
            level: lay_over(current.level, update.level),
        }
    }
}

} // verus!
