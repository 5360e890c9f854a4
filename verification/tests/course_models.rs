use webservice::models::course::{Course, UpdateCourse};

fn stored() -> Course {
    Course {
        teacher_id: 2,
        id: 9,
        name: "Rust".to_string(),
        description: Some("intro".to_string()),
        format: None,
        structure: Some("weekly".to_string()),
        duration: None,
        price: Some(120),
        language: None,
        level: Some("beginner".to_string()),
    }
}

fn no_update() -> UpdateCourse {
    UpdateCourse {
        name: None,
        description: None,
        format: None,
        structure: None,
        duration: None,
        price: None,
        language: None,
        level: None,
    }
}

#[test]
fn course_merged_with_an_empty_update_is_the_stored_course() {
    assert_eq!(Course::merged(stored(), no_update()), stored());
}

#[test]
fn course_merged_leaves_null_columns_null() {
    let mut update = no_update();
    update.name = Some("Go".to_string());
    let course = Course {
        teacher_id: 1,
        id: 1,
        name: "Rust".to_string(),
        description: None,
        format: None,
        structure: None,
        duration: None,
        price: None,
        language: None,
        level: None,
    };
    assert_eq!(
        Course::merged(course, update),
        Course {
            teacher_id: 1,
            id: 1,
            name: "Go".to_string(),
            description: None,
            format: None,
            structure: None,
            duration: None,
            price: None,
            language: None,
            level: None,
        }
    );
}

#[test]
fn course_merged_fills_a_null_column_that_the_update_holds() {
    let mut update = no_update();
    update.format = Some(String::new());
    update.language = Some("en".to_string());
    let merged = Course::merged(stored(), update);
    assert_eq!(merged.format, Some(String::new()));
    assert_eq!(merged.language, Some("en".to_string()));
    assert_eq!(merged.duration, None);
}

#[test]
fn course_merged_replaces_present_fields_only() {
    let mut update = no_update();
    update.name = Some("Verus".to_string());
    update.price = Some(-5);
    update.format = Some("video".to_string());
    let merged = Course::merged(stored(), update);
    assert_eq!(merged.name, "Verus");
    assert_eq!(merged.price, Some(-5));
    assert_eq!(merged.format, Some("video".to_string()));
    assert_eq!(merged.description, Some("intro".to_string()));
    assert_eq!(merged.structure, Some("weekly".to_string()));
    assert_eq!(merged.duration, None);
    assert_eq!(merged.language, None);
    assert_eq!(merged.level, Some("beginner".to_string()));
}

#[test]
fn course_merged_keeps_both_keys() {
    let mut update = no_update();
    update.name = Some("x".to_string());
    let merged = Course::merged(stored(), update);
    assert_eq!(merged.teacher_id, 2);
    assert_eq!(merged.id, 9);
}

#[test]
fn course_merged_replaces_every_field_of_a_full_update() {
    let update = UpdateCourse {
        name: Some("n".to_string()),
        description: Some("d".to_string()),
        format: Some("f".to_string()),
        structure: Some("s".to_string()),
        duration: Some("t".to_string()),
        price: Some(1),
        language: Some("l".to_string()),
        level: Some("v".to_string()),
    };
    assert_eq!(
        Course::merged(stored(), update),
        Course {
            teacher_id: 2,
            id: 9,
            name: "n".to_string(),
            description: Some("d".to_string()),
            format: Some("f".to_string()),
            structure: Some("s".to_string()),
            duration: Some("t".to_string()),
            price: Some(1),
            language: Some("l".to_string()),
            level: Some("v".to_string()),
        }
    );
}
