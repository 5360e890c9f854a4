//! The answers of the course endpoints.

use crate::error::MyError;
use crate::handlers::{answer, answered, JsonResponse};
use crate::models::course::Course;
use vstd::prelude::*;

verus! {

/// Answers a listing of the courses of one teacher.
pub fn get_course_for_teacher(outcome: Result<Vec<Course>, MyError>) -> (response: Result<
    JsonResponse<Vec<Course>>,
    MyError,
>)
    ensures
        response == answered(outcome),
{
    answer(outcome)
}

/// Answers the reading of one course.
pub fn get_course_detail(outcome: Result<Course, MyError>) -> (response: Result<
    JsonResponse<Course>,
    MyError,
>)
    ensures
        response == answered(outcome),
{
    answer(outcome)
}

/// Answers the creation of a course.
pub fn post_new_course(outcome: Result<Course, MyError>) -> (response: Result<
    JsonResponse<Course>,
    MyError,
>)
    ensures
        response == answered(outcome),
{
    answer(outcome)
}

/// Answers the update of a course.
pub fn update_course_detail(outcome: Result<Course, MyError>) -> (response: Result<
    JsonResponse<Course>,
    MyError,
>)
    ensures
        response == answered(outcome),
{
    answer(outcome)
}

/// Answers the deletion of a course.
pub fn delete_course(outcome: Result<String, MyError>) -> (response: Result<
    JsonResponse<String>,
    MyError,
>)
    ensures
        response == answered(outcome),
{
    answer(outcome)
}

} // verus!
