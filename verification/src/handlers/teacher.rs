//! The answers of the teacher endpoints.

use crate::error::MyError;
use crate::handlers::{answer, answered, JsonResponse};
use crate::models::teacher::Teacher;
use vstd::prelude::*;

verus! {

/// Answers a listing of all teachers.
pub fn get_all_teachers(outcome: Result<Vec<Teacher>, MyError>) -> (response: Result<
    JsonResponse<Vec<Teacher>>,
    MyError,
>)
    ensures
        response == answered(outcome),
{
    answer(outcome)
}

/// Answers the reading of one teacher.
pub fn get_teacher_detail(outcome: Result<Teacher, MyError>) -> (response: Result<
    JsonResponse<Teacher>,
    MyError,
>)
    ensures
        response == answered(outcome),
{
    answer(outcome)
}

/// Answers the creation of a teacher.
pub fn post_new_teacher(outcome: Result<Teacher, MyError>) -> (response: Result<
    JsonResponse<Teacher>,
    MyError,
>)
    ensures
        response == answered(outcome),
{
    answer(outcome)
}

/// Answers the update of a teacher.
pub fn update_teacher_detail(outcome: Result<Teacher, MyError>) -> (response: Result<
    JsonResponse<Teacher>,
    MyError,
>)
    ensures
        response == answered(outcome),
{
    answer(outcome)
}

/// Answers the deletion of a teacher.
pub fn delete_teacher(outcome: Result<String, MyError>) -> (response: Result<
    JsonResponse<String>,
    MyError,
>)
    ensures
        response == answered(outcome),
{
    answer(outcome)
}

} // verus!
