use webservice::dbaccess::course::{
    delete_course_db, get_course_detail_db, get_course_for_teacher_db, post_new_course_db,
    update_course_detail_db,
};
use webservice::dbaccess::teacher::{
    delete_teacher_db, get_all_teacher_db, get_teacher_detail_db, post_new_teacher_db,
    update_teacher_details_db,
};
use webservice::error::MyError;
use webservice::models::course::{Course, CreateCourse, UpdateCourse};
use webservice::models::teacher::{CreateTeacher, Teacher, TeacherRow, UpdateTeacher};
use webservice::store::{Statement, StoreFailure};

/// A store in memory that answers each statement as a relational store
/// with auto-incremented keys does.
struct MemoryStore {
    teachers: Vec<TeacherRow>,
    courses: Vec<Course>,
    next_teacher: i32,
    next_course: i32,
}

impl MemoryStore {
    fn new() -> MemoryStore {
        MemoryStore { teachers: Vec::new(), courses: Vec::new(), next_teacher: 1, next_course: 1 }
    }

    fn teacher_rows(&self, statement: &Statement) -> Vec<TeacherRow> {
        match statement {
            Statement::ListTeachers => self.teachers.clone(),
            Statement::FindTeacher { id } => {
                self.teachers.iter().filter(|row| row.id == *id).cloned().collect()
            }
            Statement::LastTeacher => {
                self.teachers.iter().max_by_key(|row| row.id).cloned().into_iter().collect()
            }
            other => panic!("not a teacher query: {:?}", other),
        }
    }

    fn course_rows(&self, statement: &Statement) -> Vec<Course> {
        match statement {
            Statement::ListCourses { teacher_id } => {
                self.courses.iter().filter(|c| c.teacher_id == *teacher_id).cloned().collect()
            }
            Statement::FindCourse { teacher_id, id } => self
                .courses
                .iter()
                .filter(|c| c.teacher_id == *teacher_id && c.id == *id)
                .cloned()
                .collect(),
            Statement::LastCourse { teacher_id } => self
                .courses
                .iter()
                .filter(|c| c.teacher_id == *teacher_id)
                .max_by_key(|c| c.id)
                .cloned()
                .into_iter()
                .collect(),
            other => panic!("not a course query: {:?}", other),
        }
    }

    fn missing() -> StoreFailure {
        StoreFailure {
            message: "no rows returned by a query that expected to return at least one row"
                .to_string(),
        }
    }

    fn fetch_teachers(&self, statement: &Statement) -> Result<Vec<TeacherRow>, StoreFailure> {
        Ok(self.teacher_rows(statement))
    }

    fn fetch_teacher(&self, statement: &Statement) -> Result<TeacherRow, StoreFailure> {
        self.teacher_rows(statement).into_iter().next().ok_or_else(MemoryStore::missing)
    }

    fn fetch_optional_teacher(
        &self,
        statement: &Statement,
    ) -> Result<Option<TeacherRow>, StoreFailure> {
        Ok(self.teacher_rows(statement).into_iter().next())
    }

    fn fetch_courses(&self, statement: &Statement) -> Result<Vec<Course>, StoreFailure> {
        Ok(self.course_rows(statement))
    }

    fn fetch_course(&self, statement: &Statement) -> Result<Course, StoreFailure> {
        self.course_rows(statement).into_iter().next().ok_or_else(MemoryStore::missing)
    }

    fn fetch_optional_course(&self, statement: &Statement) -> Result<Option<Course>, StoreFailure> {
        Ok(self.course_rows(statement).into_iter().next())
    }

    fn execute(&mut self, statement: &Statement) -> Result<String, StoreFailure> {
        let mut last_insert_id = 0;
        let rows_affected = match statement {
            Statement::InsertTeacher(new) => {
                last_insert_id = self.next_teacher;
                self.next_teacher += 1;
                self.teachers.push(TeacherRow {
                    id: last_insert_id,
                    name: Some(new.name.clone()),
                    picture_url: Some(new.picture_url.clone()),
                    profile: Some(new.profile.clone()),
                });
                1
            }
            Statement::UpdateTeacher(written) => {
                let mut hits = 0;
                for row in self.teachers.iter_mut().filter(|row| row.id == written.id) {
                    row.name = Some(written.name.clone());
                    row.picture_url = Some(written.picture_url.clone());
                    row.profile = Some(written.profile.clone());
                    hits += 1;
                }
                hits
            }
            Statement::DeleteTeacher { id } => {
                let before = self.teachers.len();
                self.teachers.retain(|row| row.id != *id);
                before - self.teachers.len()
            }
            Statement::InsertCourse(new) => {
                last_insert_id = self.next_course;
                self.next_course += 1;
                self.courses.push(Course {
                    teacher_id: new.teacher_id,
                    id: last_insert_id,
                    name: new.name.clone(),
                    description: new.description.clone(),
                    format: new.format.clone(),
                    structure: new.structure.clone(),
                    duration: new.duration.clone(),
                    price: new.price,
                    language: new.language.clone(),
                    level: new.level.clone(),
                });
                1
            }
            Statement::UpdateCourse(written) => {
                let mut hits = 0;
                for course in self
                    .courses
                    .iter_mut()
                    .filter(|c| c.teacher_id == written.teacher_id && c.id == written.id)
                {
                    *course = written.clone();
                    hits += 1;
                }
                hits
            }
            Statement::DeleteCourse { teacher_id, id } => {
                let before = self.courses.len();
                self.courses.retain(|c| !(c.teacher_id == *teacher_id && c.id == *id));
                before - self.courses.len()
            }
            other => panic!("not a writing statement: {:?}", other),
        };
        Ok(format!(
            "MySqlQueryResult {{ rows_affected: {}, last_insert_id: {} }}",
            rows_affected, last_insert_id
        ))
    }
}

fn list_teachers(store: &MemoryStore) -> Result<Vec<Teacher>, MyError> {
    let listing = get_all_teacher_db();
    let reply = store.fetch_teachers(&listing.statement);
    listing.finish(reply)
}

fn get_teacher(store: &MemoryStore, id: i32) -> Result<Teacher, MyError> {
    let lookup = get_teacher_detail_db(id);
    let reply = store.fetch_optional_teacher(&lookup.statement);
    lookup.finish(reply)
}

fn create_teacher(store: &mut MemoryStore, new: CreateTeacher) -> Result<Teacher, MyError> {
    let insertion = post_new_teacher_db(new);
    let reply = store.execute(&insertion.statement);
    let reselection = insertion.resume(reply)?;
    let reply = store.fetch_teacher(&reselection.statement);
    reselection.finish(reply)
}

fn update_teacher(
    store: &mut MemoryStore,
    id: i32,
    update: UpdateTeacher,
) -> Result<Teacher, MyError> {
    let revision = update_teacher_details_db(id, update);
    let reply = store.fetch_optional_teacher(&revision.statement);
    let rewrite = revision.resume(reply)?;
    let reply = store.execute(&rewrite.statement);
    let lookup = rewrite.resume(reply)?;
    let reply = store.fetch_optional_teacher(&lookup.statement);
    lookup.finish(reply)
}

fn delete_teacher(store: &mut MemoryStore, id: i32) -> Result<String, MyError> {
    let deletion = delete_teacher_db(id);
    let reply = store.execute(&deletion.statement);
    deletion.finish(reply)
}

fn list_courses(store: &MemoryStore, teacher_id: i32) -> Result<Vec<Course>, MyError> {
    let listing = get_course_for_teacher_db(teacher_id);
    let reply = store.fetch_courses(&listing.statement);
    listing.finish(reply)
}

fn get_course(store: &MemoryStore, teacher_id: i32, id: i32) -> Result<Course, MyError> {
    let lookup = get_course_detail_db(teacher_id, id);
    let reply = store.fetch_optional_course(&lookup.statement);
    lookup.finish(reply)
}

fn create_course(store: &mut MemoryStore, new: CreateCourse) -> Result<Course, MyError> {
    let insertion = post_new_course_db(new);
    let reply = store.execute(&insertion.statement);
    let reselection = insertion.resume(reply)?;
    let reply = store.fetch_course(&reselection.statement);
    reselection.finish(reply)
}

fn update_course(
    store: &mut MemoryStore,
    teacher_id: i32,
    id: i32,
    update: UpdateCourse,
) -> Result<Course, MyError> {
    let revision = update_course_detail_db(teacher_id, id, update);
    let reply = store.fetch_optional_course(&revision.statement);
    let rewrite = revision.resume(reply)?;
    let reply = store.execute(&rewrite.statement);
    let reread = rewrite.resume(reply)?;
    let reply = store.fetch_optional_course(&reread.statement);
    reread.finish(reply)
}

fn delete_course(store: &mut MemoryStore, teacher_id: i32, id: i32) -> Result<String, MyError> {
    let deletion = delete_course_db(teacher_id, id);
    let reply = store.execute(&deletion.statement);
    deletion.finish(reply)
}

fn ann() -> CreateTeacher {
    CreateTeacher { name: "Ann".to_string(), picture_url: "u".to_string(), profile: "p".to_string() }
}

fn bob() -> CreateTeacher {
    CreateTeacher { name: "Bob".to_string(), picture_url: "v".to_string(), profile: "q".to_string() }
}

fn rust_course(teacher_id: i32) -> CreateCourse {
    CreateCourse {
        teacher_id,
        name: "Rust".to_string(),
        description: Some("intro".to_string()),
        format: None,
        structure: None,
        duration: None,
        price: Some(100),
        language: None,
        level: None,
    }
}

fn no_course_update() -> UpdateCourse {
    UpdateCourse {
        name: None,
        description: None,
        format: None,
        structure: None,
        duration: None,
        price: None,
        language: None,
        level: None,
    }
}

fn not_found(message: &str) -> MyError {
    MyError::NotFound(message.to_string())
}

#[test]
fn created_teacher_is_read_back_as_submitted() {
    let mut store = MemoryStore::new();
    let created = create_teacher(&mut store, ann()).unwrap();
    assert_eq!(created.name, "Ann");
    assert_eq!(created.picture_url, "u");
    assert_eq!(created.profile, "p");
    assert_eq!(get_teacher(&store, created.id), Ok(created));
}

#[test]
fn each_created_teacher_gets_an_id_of_its_own() {
    let mut store = MemoryStore::new();
    let first = create_teacher(&mut store, ann()).unwrap();
    let second = create_teacher(&mut store, bob()).unwrap();
    assert_ne!(first.id, second.id);
    assert_eq!(second.name, "Bob");
    assert_eq!(get_teacher(&store, first.id), Ok(first.clone()));
    assert_eq!(get_teacher(&store, second.id), Ok(second.clone()));
    assert_eq!(list_teachers(&store), Ok(vec![first, second]));
}

#[test]
fn update_with_a_name_only_leaves_the_other_fields() {
    let mut store = MemoryStore::new();
    let created = create_teacher(&mut store, ann()).unwrap();
    let other = create_teacher(&mut store, bob()).unwrap();
    let update = UpdateTeacher { name: Some("Ann2".to_string()), picture_url: None, profile: None };
    let updated = update_teacher(&mut store, created.id, update).unwrap();
    assert_eq!(
        updated,
        Teacher {
            id: created.id,
            name: "Ann2".to_string(),
            picture_url: "u".to_string(),
            profile: "p".to_string(),
        }
    );
    assert_eq!(get_teacher(&store, created.id), Ok(updated));
    assert_eq!(get_teacher(&store, other.id), Ok(other));
}

#[test]
fn update_of_an_id_that_is_not_stored_is_not_found_and_writes_nothing() {
    let mut store = MemoryStore::new();
    let created = create_teacher(&mut store, ann()).unwrap();
    let update = UpdateTeacher { name: Some("x".to_string()), picture_url: None, profile: None };
    assert_eq!(
        update_teacher(&mut store, created.id + 1, update),
        Err(not_found("Teacher id not found"))
    );
    assert_eq!(list_teachers(&store), Ok(vec![created]));
}

#[test]
fn deleted_teacher_is_not_found() {
    let mut store = MemoryStore::new();
    let created = create_teacher(&mut store, ann()).unwrap();
    let kept = create_teacher(&mut store, bob()).unwrap();
    assert_eq!(
        delete_teacher(&mut store, created.id),
        Ok(format!(
            "Delete MySqlQueryResult {{ rows_affected: 1, last_insert_id: 0 }} record"
        ))
    );
    assert_eq!(get_teacher(&store, created.id), Err(not_found("Teacher id not found")));
    assert_eq!(get_teacher(&store, kept.id), Ok(kept));
}

#[test]
fn deleting_an_id_that_is_not_stored_reports_success() {
    let mut store = MemoryStore::new();
    assert_eq!(
        delete_teacher(&mut store, 41),
        Ok("Delete MySqlQueryResult { rows_affected: 0, last_insert_id: 0 } record".to_string())
    );
}

#[test]
fn listing_is_not_found_until_a_teacher_is_stored_and_again_once_all_are_gone() {
    let mut store = MemoryStore::new();
    assert_eq!(list_teachers(&store), Err(not_found("Not teachers found")));
    let created = create_teacher(&mut store, ann()).unwrap();
    assert_eq!(list_teachers(&store), Ok(vec![created.clone()]));
    delete_teacher(&mut store, created.id).unwrap();
    assert_eq!(list_teachers(&store), Err(not_found("Not teachers found")));
}

#[test]
fn teacher_lifecycle_scenario() {
    let mut store = MemoryStore::new();
    let created = create_teacher(&mut store, ann()).unwrap();
    assert_eq!(
        get_teacher(&store, created.id),
        Ok(Teacher {
            id: created.id,
            name: "Ann".to_string(),
            picture_url: "u".to_string(),
            profile: "p".to_string(),
        })
    );
    let update = UpdateTeacher { name: Some("Ann2".to_string()), picture_url: None, profile: None };
    let updated = update_teacher(&mut store, created.id, update).unwrap();
    assert_eq!(updated.name, "Ann2");
    assert_eq!(updated.picture_url, "u");
    assert_eq!(updated.profile, "p");
    delete_teacher(&mut store, created.id).unwrap();
    assert_eq!(get_teacher(&store, created.id), Err(not_found("Teacher id not found")));
}

#[test]
fn created_course_is_read_back_as_submitted() {
    let mut store = MemoryStore::new();
    let created = create_course(&mut store, rust_course(3)).unwrap();
    assert_eq!(
        created,
        Course {
            teacher_id: 3,
            id: created.id,
            name: "Rust".to_string(),
            description: Some("intro".to_string()),
            format: None,
            structure: None,
            duration: None,
            price: Some(100),
            language: None,
            level: None,
        }
    );
    assert_eq!(get_course(&store, 3, created.id), Ok(created));
}

#[test]
fn course_creation_gives_the_teachers_own_newest_course() {
    let mut store = MemoryStore::new();
    let of_three = create_course(&mut store, rust_course(3)).unwrap();
    let of_four = create_course(&mut store, rust_course(4)).unwrap();
    assert_eq!(of_three.teacher_id, 3);
    assert_eq!(of_four.teacher_id, 4);
    assert_ne!(of_three.id, of_four.id);
}

#[test]
fn course_listing_holds_only_the_teachers_own_courses() {
    let mut store = MemoryStore::new();
    let first = create_course(&mut store, rust_course(3)).unwrap();
    let foreign = create_course(&mut store, rust_course(4)).unwrap();
    let second = create_course(&mut store, rust_course(3)).unwrap();
    assert_eq!(list_courses(&store, 3), Ok(vec![first, second]));
    assert_eq!(list_courses(&store, 4), Ok(vec![foreign]));
    assert_eq!(list_courses(&store, 5), Ok(Vec::new()));
}

#[test]
fn reading_a_course_through_another_teacher_is_not_found() {
    let mut store = MemoryStore::new();
    let created = create_course(&mut store, rust_course(3)).unwrap();
    assert_eq!(get_course(&store, 4, created.id), Err(not_found("Course id not found")));
}

#[test]
fn updating_a_course_through_another_teacher_is_not_found_and_writes_nothing() {
    let mut store = MemoryStore::new();
    let created = create_course(&mut store, rust_course(3)).unwrap();
    let mut update = no_course_update();
    update.name = Some("stolen".to_string());
    assert_eq!(
        update_course(&mut store, 4, created.id, update),
        Err(not_found("Course id not found"))
    );
    assert_eq!(get_course(&store, 3, created.id), Ok(created));
}

#[test]
fn deleting_a_course_through_another_teacher_removes_nothing() {
    let mut store = MemoryStore::new();
    let created = create_course(&mut store, rust_course(3)).unwrap();
    assert_eq!(
        delete_course(&mut store, 4, created.id),
        Ok("Delete Ok(MySqlQueryResult { rows_affected: 0, last_insert_id: 0 }) record".to_string())
    );
    assert_eq!(get_course(&store, 3, created.id), Ok(created));
}

#[test]
fn course_update_lays_the_submitted_fields_over_the_stored_ones() {
    let mut store = MemoryStore::new();
    let created = create_course(&mut store, rust_course(3)).unwrap();
    let mut update = no_course_update();
    update.price = Some(250);
    let updated = update_course(&mut store, 3, created.id, update).unwrap();
    assert_eq!(
        updated,
        Course {
            teacher_id: 3,
            id: created.id,
            name: "Rust".to_string(),
            description: Some("intro".to_string()),
            format: None,
            structure: None,
            duration: None,
            price: Some(250),
            language: None,
            level: None,
        }
    );
    assert_eq!(get_course(&store, 3, created.id), Ok(updated));
}

#[test]
fn renaming_a_course_leaves_its_null_columns_null() {
    let mut store = MemoryStore::new();
    let new = CreateCourse {
        teacher_id: 1,
        name: "Rust".to_string(),
        description: None,
        format: None,
        structure: None,
        duration: None,
        price: None,
        language: None,
        level: None,
    };
    let created = create_course(&mut store, new).unwrap();
    let mut update = no_course_update();
    update.name = Some("Go".to_string());
    let renamed = Course {
        teacher_id: 1,
        id: created.id,
        name: "Go".to_string(),
        description: None,
        format: None,
        structure: None,
        duration: None,
        price: None,
        language: None,
        level: None,
    };
    assert_eq!(update_course(&mut store, 1, created.id, update), Ok(renamed.clone()));
    assert_eq!(get_course(&store, 1, created.id), Ok(renamed));
}

#[test]
fn deleted_course_is_not_found() {
    let mut store = MemoryStore::new();
    let created = create_course(&mut store, rust_course(3)).unwrap();
    assert_eq!(
        delete_course(&mut store, 3, created.id),
        Ok("Delete Ok(MySqlQueryResult { rows_affected: 1, last_insert_id: 0 }) record".to_string())
    );
    assert_eq!(get_course(&store, 3, created.id), Err(not_found("Course id not found")));
}

#[test]
fn deleting_a_teacher_leaves_the_courses_behind() {
    let mut store = MemoryStore::new();
    let teacher = create_teacher(&mut store, ann()).unwrap();
    let course = create_course(&mut store, rust_course(teacher.id)).unwrap();
    delete_teacher(&mut store, teacher.id).unwrap();
    assert_eq!(get_course(&store, teacher.id, course.id), Ok(course));
}
