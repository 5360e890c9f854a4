use webservice::dbaccess::teacher::{
    all_rows_complete, delete_teacher_db, get_all_teacher_db, get_teacher_detail_db, post_new_teacher_db,
    update_teacher_details_db,
};
use webservice::error::MyError;
use webservice::handlers::teacher::{
    delete_teacher, get_all_teachers, get_teacher_detail, post_new_teacher,
};
use webservice::models::teacher::{CreateTeacher, Teacher, TeacherRow, UpdateTeacher};
use webservice::store::{Statement, StoreFailure};

fn row(id: i32, name: &str, picture_url: &str, profile: &str) -> TeacherRow {
    TeacherRow {
        id,
        name: Some(name.to_string()),
        picture_url: Some(picture_url.to_string()),
        profile: Some(profile.to_string()),
    }
}

fn teacher(id: i32, name: &str, picture_url: &str, profile: &str) -> Teacher {
    Teacher {
        id,
        name: name.to_string(),
        picture_url: picture_url.to_string(),
        profile: profile.to_string(),
    }
}

fn failure(message: &str) -> StoreFailure {
    StoreFailure { message: message.to_string() }
}

fn executed() -> Result<String, StoreFailure> {
    Ok("MySqlQueryResult { rows_affected: 1, last_insert_id: 0 }".to_string())
}

#[test]
fn get_all_teacher_success_test() {
    let listing = get_all_teacher_db();
    assert_eq!(listing.statement, Statement::ListTeachers);
    let outcome = listing.finish(Ok(vec![row(1, "Ann", "u", "p")]));
    let resp = get_all_teachers(outcome).unwrap();
    assert_eq!(resp.status, 200);
    assert_eq!(resp.body, vec![teacher(1, "Ann", "u", "p")]);
}

#[test]
fn listing_keeps_the_order_of_the_rows() {
    let rows = vec![row(3, "c", "", ""), row(1, "a", "", ""), row(2, "b", "", "")];
    let teachers = get_all_teacher_db().finish(Ok(rows)).unwrap();
    assert_eq!(
        teachers,
        vec![teacher(3, "c", "", ""), teacher(1, "a", "", ""), teacher(2, "b", "", "")]
    );
}

#[test]
fn listing_an_empty_table_is_not_found() {
    let outcome = get_all_teacher_db().finish(Ok(Vec::new()));
    assert_eq!(outcome, Err(MyError::NotFound("Not teachers found".to_string())));
}

#[test]
fn listing_hands_on_the_message_of_a_store_failure() {
    let outcome = get_all_teacher_db().finish(Err(failure("pool timed out")));
    assert_eq!(outcome, Err(MyError::DBError("pool timed out".to_string())));
}

#[test]
fn get_tutor_detail_success_test() {
    let lookup = get_teacher_detail_db(1);
    assert_eq!(lookup.statement, Statement::FindTeacher { id: 1 });
    let outcome = lookup.finish(Ok(Some(row(1, "Ann", "u", "p"))));
    let resp = get_teacher_detail(outcome).unwrap();
    assert_eq!(resp.status, 200);
    assert_eq!(resp.body, teacher(1, "Ann", "u", "p"));
}

#[test]
fn reading_an_absent_teacher_is_not_found() {
    let outcome = get_teacher_detail_db(1).finish(Ok(None));
    assert_eq!(outcome, Err(MyError::NotFound("Teacher id not found".to_string())));
}

#[test]
fn reading_that_the_store_fails_is_a_db_error() {
    let outcome = get_teacher_detail_db(1).finish(Err(failure("connection reset")));
    assert_eq!(outcome, Err(MyError::DBError("connection reset".to_string())));
}

#[test]
fn post_teacher_success_test() {
    let new_teacher = CreateTeacher {
        name: "Third Teacher".into(),
        picture_url: "http://yangxu.pro".into(),
        profile: "A teacher in Machine Learning".into(),
    };
    let insertion = post_new_teacher_db(new_teacher.clone());
    assert_eq!(insertion.statement, Statement::InsertTeacher(new_teacher));
    let reselection = insertion.resume(executed()).unwrap();
    assert_eq!(reselection.statement, Statement::LastTeacher);
    let outcome = reselection.finish(Ok(row(
        3,
        "Third Teacher",
        "http://yangxu.pro",
        "A teacher in Machine Learning",
    )));
    let resp = post_new_teacher(outcome).unwrap();
    assert_eq!(resp.status, 200);
    assert_eq!(
        resp.body,
        teacher(3, "Third Teacher", "http://yangxu.pro", "A teacher in Machine Learning")
    );
}

#[test]
fn creation_ends_where_the_store_refuses_the_insertion() {
    let new_teacher = CreateTeacher {
        name: "a".to_string(),
        picture_url: "b".to_string(),
        profile: "c".to_string(),
    };
    let next = post_new_teacher_db(new_teacher).resume(Err(failure("data too long")));
    assert_eq!(next.unwrap_err(), MyError::DBError("data too long".to_string()));
}

#[test]
fn creation_without_a_reselected_row_is_a_db_error() {
    let new_teacher = CreateTeacher {
        name: "a".to_string(),
        picture_url: "b".to_string(),
        profile: "c".to_string(),
    };
    let reselection = post_new_teacher_db(new_teacher).resume(executed()).unwrap();
    let outcome = reselection.finish(Err(failure("no rows returned")));
    assert_eq!(outcome, Err(MyError::DBError("no rows returned".to_string())));
}

#[test]
fn update_asks_for_the_row_writes_the_merge_and_reads_again() {
    let update = UpdateTeacher { name: Some("Ann2".to_string()), picture_url: None, profile: None };
    let revision = update_teacher_details_db(5, update);
    assert_eq!(revision.statement, Statement::FindTeacher { id: 5 });
    let rewrite = revision.resume(Ok(Some(row(5, "Ann", "u", "p")))).unwrap();
    assert_eq!(rewrite.statement, Statement::UpdateTeacher(teacher(5, "Ann2", "u", "p")));
    let lookup = rewrite.resume(executed()).unwrap();
    assert_eq!(lookup.statement, Statement::FindTeacher { id: 5 });
    let outcome = lookup.finish(Ok(Some(row(5, "Ann2", "u", "p"))));
    assert_eq!(outcome, Ok(teacher(5, "Ann2", "u", "p")));
}

#[test]
fn update_writes_under_the_id_that_was_asked_for() {
    let update = UpdateTeacher { name: None, picture_url: None, profile: None };
    let rewrite = update_teacher_details_db(5, update).resume(Ok(Some(row(6, "Ann", "u", "p")))).unwrap();
    assert_eq!(rewrite.statement, Statement::UpdateTeacher(teacher(5, "Ann", "u", "p")));
}

#[test]
fn update_of_an_absent_teacher_is_not_found() {
    let update = UpdateTeacher { name: Some("x".to_string()), picture_url: None, profile: None };
    let next = update_teacher_details_db(5, update).resume(Ok(None));
    assert_eq!(next.unwrap_err(), MyError::NotFound("Teacher id not found".to_string()));
}

#[test]
fn update_whose_first_reading_the_store_fails_is_a_db_error() {
    let update = UpdateTeacher { name: Some("x".to_string()), picture_url: None, profile: None };
    let next = update_teacher_details_db(5, update).resume(Err(failure("connection reset")));
    assert_eq!(next.unwrap_err(), MyError::DBError("connection reset".to_string()));
}

#[test]
fn update_ends_where_the_store_refuses_the_writing() {
    let update = UpdateTeacher { name: Some("x".to_string()), picture_url: None, profile: None };
    let rewrite = update_teacher_details_db(5, update).resume(Ok(Some(row(5, "Ann", "u", "p")))).unwrap();
    let next = rewrite.resume(Err(failure("deadlock")));
    assert_eq!(next.unwrap_err(), MyError::DBError("deadlock".to_string()));
}

#[test]
fn update_whose_row_is_gone_at_the_end_is_not_found() {
    let update = UpdateTeacher { name: Some("x".to_string()), picture_url: None, profile: None };
    let rewrite = update_teacher_details_db(5, update).resume(Ok(Some(row(5, "Ann", "u", "p")))).unwrap();
    let lookup = rewrite.resume(executed()).unwrap();
    let outcome = lookup.finish(Ok(None));
    assert_eq!(outcome, Err(MyError::NotFound("Teacher id not found".to_string())));
}

#[test]
fn update_whose_last_reading_the_store_fails_is_a_db_error() {
    let update = UpdateTeacher { name: Some("x".to_string()), picture_url: None, profile: None };
    let rewrite =
        update_teacher_details_db(5, update).resume(Ok(Some(row(5, "Ann", "u", "p")))).unwrap();
    let lookup = rewrite.resume(executed()).unwrap();
    let outcome = lookup.finish(Err(failure("pool timed out")));
    assert_eq!(outcome, Err(MyError::DBError("pool timed out".to_string())));
}

#[test]
fn delete_teacher_success_test() {
    let deletion = delete_teacher_db(1);
    assert_eq!(deletion.statement, Statement::DeleteTeacher { id: 1 });
    let resp = delete_teacher(deletion.finish(executed())).unwrap();
    assert_eq!(resp.status, 200);
    assert_eq!(resp.body, "Delete MySqlQueryResult { rows_affected: 1, last_insert_id: 0 } record");
}

#[test]
fn deletion_of_nothing_reports_success() {
    let reply = Ok("MySqlQueryResult { rows_affected: 0, last_insert_id: 0 }".to_string());
    let outcome = delete_teacher_db(404).finish(reply);
    assert_eq!(
        outcome,
        Ok("Delete MySqlQueryResult { rows_affected: 0, last_insert_id: 0 } record".to_string())
    );
}

#[test]
fn deletion_with_an_empty_diagnostic_still_frames_it() {
    assert_eq!(delete_teacher_db(1).finish(Ok(String::new())), Ok("Delete  record".to_string()));
}

#[test]
fn deletion_that_the_store_fails_is_a_db_error() {
    let outcome = delete_teacher_db(1).finish(Err(failure("foreign key constraint fails")));
    assert_eq!(outcome, Err(MyError::DBError("Unable to delete teacher".to_string())));
}

#[test]
fn rows_are_complete_only_if_each_one_is() {
    assert!(all_rows_complete(&Vec::new()));
    assert!(all_rows_complete(&vec![row(1, "a", "b", "c"), row(2, "", "", "")]));
    let mut broken = row(3, "a", "b", "c");
    broken.profile = None;
    assert!(!all_rows_complete(&vec![row(1, "a", "b", "c"), broken.clone()]));
    assert!(!all_rows_complete(&vec![broken, row(1, "a", "b", "c")]));
}
