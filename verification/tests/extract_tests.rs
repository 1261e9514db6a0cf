use ralph_hook_fmt::extract::extract_file_path;

#[test]
fn test_extract_file_path_write() {
    let input = r#"{
            "tool_name": "Write",
            "tool_input": {
                "file_path": "/path/to/file.rs",
                "content": "fn main() {}"
            }
        }"#;
    let path = extract_file_path(input).unwrap();
    assert_eq!(path, "/path/to/file.rs".to_string());
}

#[test]
fn test_extract_file_path_edit() {
    let input = r#"{
            "tool_name": "Edit",
            "tool_input": {
                "file_path": "/path/to/file.py",
                "old_string": "foo",
                "new_string": "bar"
            }
        }"#;
    let path = extract_file_path(input).unwrap();
    assert_eq!(path, "/path/to/file.py".to_string());
}

#[test]
fn test_extract_file_path_missing() {
    let input = r#"{
            "tool_name": "Write",
            "tool_input": {}
        }"#;
    assert!(extract_file_path(input).is_none());
}

#[test]
fn test_extract_file_path_invalid_json() {
    let input = "not valid json";
    assert!(extract_file_path(input).is_none());
}

#[test]
fn test_extract_file_path_with_spaces() {
    let input = r#"{"tool_input": {"file_path": "/path/with spaces/file.rs"}}"#;
    let path = extract_file_path(input).unwrap();
    assert_eq!(path, "/path/with spaces/file.rs".to_string());
}

#[test]
fn test_extract_file_path_compact_json() {
    let input = r#"{"tool_input":{"file_path":"/path/to/file.rs"}}"#;
    let path = extract_file_path(input).unwrap();
    assert_eq!(path, "/path/to/file.rs".to_string());
}

#[test]
fn test_extract_unescapes_quotes_and_backslashes() {
    let input = "{\"tool_input\":{\"file_path\":\"C:\\\\temp\\\\a.rs\"}}";
    let path = extract_file_path(input).unwrap();
    assert_eq!(path, "C:\\temp\\a.rs".to_string());
}

#[test]
fn test_extract_rejects_empty_value() {
    let input = r#"{"tool_input":{"file_path":""}}"#;
    assert!(extract_file_path(input).is_none());
}

#[test]
fn test_extract_rejects_unquoted_value() {
    let input = r#"{"tool_input":{"file_path": 42}}"#;
    assert!(extract_file_path(input).is_none());
}

#[test]
fn test_extract_rejects_missing_colon() {
    let input = r#"{"tool_input":{"file_path" "/a/b.rs"}}"#;
    assert!(extract_file_path(input).is_none());
}

#[test]
fn test_extract_tolerates_garbage_around_key() {
    let input = "garbage {{{ \"file_path\"  :   \"/ok/file.go\" more garbage";
    let path = extract_file_path(input).unwrap();
    assert_eq!(path, "/ok/file.go".to_string());
}
