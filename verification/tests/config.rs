use ybuild::config::{load_preference, save_preference, updated_config};
use ybuild::error::YbuildError;
use ybuild::json::{get_field, Json};

#[test]
fn saved_system_loads_back() {
    let text = save_preference(None, Some("/home/me/app"), "Rust", None).unwrap();
    assert_eq!(load_preference(&text, "/home/me/app"), Some(("Rust".to_string(), None)));
}

#[test]
fn saved_command_loads_back() {
    let text = save_preference(None, Some("/p"), "Custom Command", Some("make -j8")).unwrap();
    assert_eq!(
        load_preference(&text, "/p"),
        Some(("Custom Command".to_string(), Some("make -j8".to_string())))
    );
}

#[test]
fn saving_keeps_other_projects_and_replaces_this_one() {
    let first = save_preference(None, Some("/a"), "Go", None).unwrap();
    let second = save_preference(Some(&first), Some("/b"), "Zig", None).unwrap();
    let third = save_preference(Some(&second), Some("/a"), "Custom Command", Some("go run .")).unwrap();
    assert_eq!(load_preference(&third, "/b"), Some(("Zig".to_string(), None)));
    assert_eq!(
        load_preference(&third, "/a"),
        Some(("Custom Command".to_string(), Some("go run .".to_string())))
    );
    assert_eq!(load_preference(&third, "/c"), None);
}

#[test]
fn plain_string_preference_names_a_system() {
    assert_eq!(load_preference("{\"/p\": \"Makefile\"}", "/p"), Some(("Makefile".to_string(), None)));
    assert_eq!(load_preference("{\"/p\": {\"command\": \"x\"}}", "/p"), None);
    assert_eq!(load_preference("{\"/p\": {\"system\": \"Go\", \"command\": 3}}", "/p"), Some(("Go".to_string(), None)));
    assert_eq!(load_preference("{\"/p\": 12}", "/p"), None);
    assert_eq!(load_preference("[1, 2]", "/p"), None);
    assert_eq!(load_preference("not json", "/p"), None);
}

#[test]
fn a_project_path_that_is_not_unicode_cannot_be_saved() {
    assert_eq!(
        save_preference(None, None, "Rust", None),
        Err(YbuildError::Config("Invalid project path".to_string()))
    );
    assert!(matches!(save_preference(Some("{oops"), None, "Rust", None), Err(YbuildError::Json(_))));
}

#[test]
fn a_number_tinyjson_cannot_write_fails_the_save() {
    assert!(matches!(save_preference(Some("{\"/x\": 1e999}"), Some("/p"), "Rust", None), Err(YbuildError::Json(_))));
    assert!(save_preference(Some("{\"/p\": 1e999}"), Some("/p"), "Rust", None).is_ok());
}

#[test]
fn json_errors_carry_the_messages_of_tinyjson() {
    match save_preference(Some("{oops"), Some("/p"), "Rust", None) {
        Err(YbuildError::Json(m)) => assert!(m.starts_with("Parse error at line:1, col:")),
        other => panic!("{:?}", other),
    }
    assert_eq!(
        save_preference(Some("{\"/x\": 1e999}"), Some("/p"), "Rust", None),
        Err(YbuildError::Json("Generate error: JSON cannot represent inf".to_string()))
    );
}

#[test]
fn unreadable_configuration_is_a_json_error() {
    assert!(matches!(save_preference(Some("{oops"), Some("/p"), "Rust", None), Err(YbuildError::Json(_))));
    assert!(matches!(updated_config(Some("{oops"), "/p", "Rust", None), Err(YbuildError::Json(_))));
}

#[test]
fn a_non_object_document_is_replaced() {
    let j = updated_config(Some("[1,2,3]"), "/p", "Go", None).unwrap();
    match j {
        Json::Object(es) => {
            assert_eq!(es.len(), 1);
            assert_eq!(es[0].0, "/p");
        }
        other => panic!("{:?}", other),
    }
}

#[test]
fn other_values_survive_a_save() {
    let text = save_preference(Some("{\"/x\": {\"system\": \"Go\", \"n\": 1.5, \"t\": [true, null]}}"), Some("/p"), "Rust", None).unwrap();
    let doc = updated_config(Some(&text), "/q", "Go", None).unwrap();
    let x = get_field(&doc, "/x").unwrap();
    assert_eq!(get_field(x, "n"), Some(&Json::Number("1.5".to_string())));
    assert_eq!(get_field(&doc, "/p").and_then(|p| get_field(p, "system")), Some(&Json::Str("Rust".to_string())));
    assert_eq!(
        get_field(x, "t"),
        Some(&Json::Array(vec![Json::Bool(true), Json::Null]))
    );
}
