use webservice::error::MyError;
use webservice::handlers::course::{
    delete_course, get_course_detail, get_course_for_teacher, post_new_course,
    update_course_detail,
};
use webservice::handlers::teacher::{
    delete_teacher, get_all_teachers, get_teacher_detail, post_new_teacher, update_teacher_detail,
};
use webservice::handlers::{error_response, JsonResponse};
use webservice::models::course::Course;
use webservice::models::teacher::Teacher;

fn teacher() -> Teacher {
    Teacher {
        id: 1,
        name: "Ann".to_string(),
        picture_url: "u".to_string(),
        profile: "p".to_string(),
    }
}

fn course() -> Course {
    Course {
        teacher_id: 1,
        id: 2,
        name: "Rust".to_string(),
        description: None,
        format: None,
        structure: None,
        duration: None,
        price: Some(10),
        language: None,
        level: None,
    }
}

fn not_found() -> MyError {
    MyError::NotFound("Teacher id not found".to_string())
}

#[test]
fn success_is_answered_with_200_and_the_result() {
    assert_eq!(
        get_all_teachers(Ok(vec![teacher()])),
        Ok(JsonResponse { status: 200, body: vec![teacher()] })
    );
    assert_eq!(get_teacher_detail(Ok(teacher())), Ok(JsonResponse { status: 200, body: teacher() }));
    assert_eq!(post_new_teacher(Ok(teacher())), Ok(JsonResponse { status: 200, body: teacher() }));
    assert_eq!(
        update_teacher_detail(Ok(teacher())),
        Ok(JsonResponse { status: 200, body: teacher() })
    );
    assert_eq!(
        delete_teacher(Ok("Delete x record".to_string())),
        Ok(JsonResponse { status: 200, body: "Delete x record".to_string() })
    );
}

#[test]
fn course_success_is_answered_with_200_and_the_result() {
    assert_eq!(
        get_course_for_teacher(Ok(Vec::new())),
        Ok(JsonResponse { status: 200, body: Vec::new() })
    );
    assert_eq!(get_course_detail(Ok(course())), Ok(JsonResponse { status: 200, body: course() }));
    assert_eq!(post_new_course(Ok(course())), Ok(JsonResponse { status: 200, body: course() }));
    assert_eq!(
        update_course_detail(Ok(course())),
        Ok(JsonResponse { status: 200, body: course() })
    );
    assert_eq!(
        delete_course(Ok("Delete Ok(x) record".to_string())),
        Ok(JsonResponse { status: 200, body: "Delete Ok(x) record".to_string() })
    );
}

#[test]
fn failure_is_handed_on_as_it_is() {
    assert_eq!(get_all_teachers(Err(not_found())), Err(not_found()));
    assert_eq!(get_teacher_detail(Err(not_found())), Err(not_found()));
    assert_eq!(post_new_teacher(Err(MyError::DBError("m".to_string()))), Err(MyError::DBError("m".to_string())));
    assert_eq!(update_teacher_detail(Err(not_found())), Err(not_found()));
    assert_eq!(delete_teacher(Err(MyError::DBError("m".to_string()))), Err(MyError::DBError("m".to_string())));
    assert_eq!(get_course_detail(Err(not_found())), Err(not_found()));
}

#[test]
fn not_found_is_a_client_error_and_the_rest_are_server_errors() {
    assert_eq!(not_found().status_code(), 404);
    assert_eq!(MyError::DBError("m".to_string()).status_code(), 500);
    assert_eq!(MyError::TeraError("m".to_string()).status_code(), 500);
}

#[test]
fn every_kind_of_failure_carries_its_message() {
    assert_eq!(not_found().message(), "Teacher id not found");
    assert_eq!(MyError::DBError("deadlock".to_string()).message(), "deadlock");
    assert_eq!(MyError::TeraError("Template error".to_string()).message(), "Template error");
}

#[test]
fn a_failure_is_answered_with_its_status_and_message() {
    assert_eq!(
        error_response(&not_found()),
        JsonResponse { status: 404, body: "Teacher id not found".to_string() }
    );
    assert_eq!(
        error_response(&MyError::DBError("deadlock".to_string())),
        JsonResponse { status: 500, body: "deadlock".to_string() }
    );
    assert_eq!(
        error_response(&MyError::TeraError("Template error".to_string())),
        JsonResponse { status: 500, body: "Template error".to_string() }
    );
}
