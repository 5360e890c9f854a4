//! Teachers: the stored record, the row as the store returns it, and the
//! inputs of creation and of partial update.

use vstd::prelude::*;

verus! {

/// A teacher as the service hands it out.
#[derive(Debug, Clone, PartialEq, Eq)]
pub struct Teacher {
    pub id: i32,
    pub name: String,
    pub picture_url: String,
    pub profile: String,
}

/// The mathematical form of [`Teacher`].
pub struct TeacherView {
    pub id: i32,
    pub name: Seq<char>,
    pub picture_url: Seq<char>,
    pub profile: Seq<char>,
}

impl View for Teacher {
    type V = TeacherView;

    open spec fn view(&self) -> TeacherView {
        TeacherView {
            id: self.id,
            name: self.name@,
            picture_url: self.picture_url@,
            profile: self.profile@,
        }
    }
}

impl DeepView for Teacher {
    type V = TeacherView;

    open spec fn deep_view(&self) -> TeacherView {
        self@
    }
}

/// What a caller submits to create a teacher. The store assigns the id.
#[derive(Debug, Clone, PartialEq, Eq)]
pub struct CreateTeacher {
    pub name: String,
    pub picture_url: String,
    pub profile: String,
}

/// The mathematical form of [`CreateTeacher`].
pub struct CreateTeacherView {
    pub name: Seq<char>,
    pub picture_url: Seq<char>,
    pub profile: Seq<char>,
}

impl View for CreateTeacher {
    type V = CreateTeacherView;

    open spec fn view(&self) -> CreateTeacherView {
        CreateTeacherView {
            name: self.name@,
            picture_url: self.picture_url@,
            profile: self.profile@,
        }
    }
}

/// A partial update of a teacher: an absent field is left as it is, a
/// present one replaces the stored value.
#[derive(Debug, Clone, PartialEq, Eq)]
pub struct UpdateTeacher {
    pub name: Option<String>,
    pub picture_url: Option<String>,
    pub profile: Option<String>,
}

/// The mathematical form of [`UpdateTeacher`].
pub struct UpdateTeacherView {
    pub name: Option<Seq<char>>,
    pub picture_url: Option<Seq<char>>,
    pub profile: Option<Seq<char>>,
}

impl View for UpdateTeacher {
    type V = UpdateTeacherView;

    open spec fn view(&self) -> UpdateTeacherView {
        UpdateTeacherView {
            name: self.name.deep_view(),
            picture_url: self.picture_url.deep_view(),
            profile: self.profile.deep_view(),
        }
    }
}

/// A row of the teacher table as the store returns it: every column but the
/// key may be null.
#[derive(Debug, Clone, PartialEq, Eq)]
pub struct TeacherRow {
    pub id: i32,
    pub name: Option<String>,
    pub picture_url: Option<String>,
    pub profile: Option<String>,
}

/// The mathematical form of [`TeacherRow`].
pub struct TeacherRowView {
    pub id: i32,
    pub name: Option<Seq<char>>,
    pub picture_url: Option<Seq<char>>,
    pub profile: Option<Seq<char>>,
}

impl View for TeacherRow {
    type V = TeacherRowView;

    open spec fn view(&self) -> TeacherRowView {
        TeacherRowView {
            id: self.id,
            name: self.name.deep_view(),
            picture_url: self.picture_url.deep_view(),
            profile: self.profile.deep_view(),
        }
    }
}

impl DeepView for TeacherRow {
    type V = TeacherRowView;

    open spec fn deep_view(&self) -> TeacherRowView {
        self@
    }
}

impl TeacherView {
    /// The row that stores this teacher.
    pub open spec fn row(self) -> TeacherRowView {
        TeacherRowView {
            id: self.id,
            name: Some(self.name),
            picture_url: Some(self.picture_url),
            profile: Some(self.profile),
        }
    }
}

impl TeacherView {
    /// The same teacher under another id.
    pub open spec fn under(self, id: i32) -> TeacherView {
        TeacherView { id, name: self.name, picture_url: self.picture_url, profile: self.profile }
    }
}

impl CreateTeacherView {
    /// The teacher that comes of this submission once the store has
    /// assigned `id`.
    pub open spec fn with_id(self, id: i32) -> TeacherView {
        TeacherView { id, name: self.name, picture_url: self.picture_url, profile: self.profile }
    }
}

impl TeacherRowView {
    /// No column of the row is null.
    pub open spec fn is_complete(self) -> bool {
        self.name is Some && self.picture_url is Some && self.profile is Some
    }

    /// The teacher that a complete row holds.
    pub open spec fn teacher(self) -> TeacherView
        recommends
            self.is_complete(),
    {
        TeacherView {
            id: self.id,
            name: self.name.unwrap(),
            picture_url: self.picture_url.unwrap(),
            profile: self.profile.unwrap(),
        }
    }

    /// Every column that `update` leaves open is present in the row, so
    /// that the two together give a whole teacher.
    pub open spec fn covers(self, update: UpdateTeacherView) -> bool {
        &&& update.name is None ==> self.name is Some
        &&& update.picture_url is None ==> self.picture_url is Some
        &&& update.profile is None ==> self.profile is Some
    }

    /// The row's teacher with the fields of `update` laid over it: a field
    /// that `update` holds replaces the row's, any other stays.
    pub open spec fn merged(self, update: UpdateTeacherView) -> TeacherView
        recommends
            self.covers(update),
    {
        TeacherView {
            id: self.id,
            name: match update.name {
                Some(name) => name,
                None => self.name.unwrap(),
            },
            picture_url: match update.picture_url {
                Some(picture_url) => picture_url,
                None => self.picture_url.unwrap(),
            },
            profile: match update.profile {
                Some(profile) => profile,
                None => self.profile.unwrap(),
            },
        }
    }
}

impl TeacherRow {
    /// Whether no column of the row is null.
    pub fn is_complete(&self) -> (complete: bool)
        ensures
            complete == self@.is_complete(),
    {
        self.name.is_some() && self.picture_url.is_some() && self.profile.is_some()
    }

    /// Whether every column that `update` leaves open is present.
    pub fn covers(&self, update: &UpdateTeacher) -> (covered: bool)
        ensures
            covered == self@.covers(update@),
    {
        (update.name.is_some() || self.name.is_some())
            && (update.picture_url.is_some() || self.picture_url.is_some())
            && (update.profile.is_some() || self.profile.is_some())
    }
}

fn present_text(text: &Option<String>) -> (copy: String)
    requires
        text is Some,
    ensures
        Some(copy@) == text.deep_view(),
{
    text.as_ref().unwrap().clone()
}

impl Teacher {
    /// Reads a teacher out of a complete row.
    pub fn from_row(row: &TeacherRow) -> (teacher: Teacher)
        requires
            row@.is_complete(),
        ensures
            teacher@ == row@.teacher(),
    {
        Teacher {
            id: row.id,
            name: present_text(&row.name),
            picture_url: present_text(&row.picture_url),
            profile: present_text(&row.profile),
        }
    }

    /// Lays a partial update over the stored row. A field that `update`
    /// holds replaces the stored one; a field that it leaves open keeps the
    /// stored value; the id is the row's.
    pub fn merged(row: TeacherRow, update: UpdateTeacher) -> (teacher: Teacher)
        requires
            row@.covers(update@),
        ensures
            teacher@ == row@.merged(update@),
            teacher@.id == row@.id,
            update@.name is Some ==> teacher@.name == update@.name.unwrap(),
            update@.name is None ==> Some(teacher@.name) == row@.name,
            update@.picture_url is Some ==> teacher@.picture_url == update@.picture_url.unwrap(),
            update@.picture_url is None ==> Some(teacher@.picture_url) == row@.picture_url,
            update@.profile is Some ==> teacher@.profile == update@.profile.unwrap(),
            update@.profile is None ==> Some(teacher@.profile) == row@.profile,
    {
        let name = match update.name {
            Some(name) => name,
            None => row.name.unwrap(),
        };
        let picture_url = match update.picture_url {
            Some(picture_url) => picture_url,
            None => row.picture_url.unwrap(),
        };
        let profile = match update.profile {
            Some(profile) => profile,
            None => row.profile.unwrap(),
        };
        Teacher { id: row.id, name, picture_url, profile }
    }
}

} // verus!
