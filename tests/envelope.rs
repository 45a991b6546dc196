use hook_api::{branch_label, error_body, snapshot_file, success_body, ApiError, CommitSnapshot};

#[test]
fn unauthorized_body_and_status() {
    let e = ApiError::Unauthorized;
    assert_eq!(e.status_code(), 401);
    assert_eq!(e.message(), "Unauthorized");
    assert_eq!(e.error_response(), "{\"error\":\"Unauthorized\",\"code\":-1}");
}

#[test]
fn error_statuses() {
    assert_eq!(ApiError::NotFound.status_code(), 404);
    assert_eq!(ApiError::NotFound.message(), "Resource Not found");
    assert_eq!(ApiError::InvalidSize.status_code(), 500);
    assert_eq!(ApiError::InvalidSize.message(), "Invalid length");
    assert_eq!(ApiError::DbError("x".to_string()).message(), "Db error x");
    assert_eq!(ApiError::NotFoundFile("f".to_string()).message(), "Not found file: f");
    assert_eq!(ApiError::NetworkError("n".to_string()).status_code(), 500);
    assert_eq!(ApiError::NetworkError("n".to_string()).message(), "Network error: n");
    let g = ApiError::GitOpsError("clone failed".to_string());
    assert_eq!(g.status_code(), 500);
    assert_eq!(g.message(), "Git ops error: clone failed");
}

#[test]
fn error_message_is_escaped() {
    let g = ApiError::GitOpsError("\"remote\" said no".to_string());
    assert_eq!(
        g.error_response(),
        "{\"error\":\"Git ops error: \\\"remote\\\" said no\",\"code\":-1}"
    );
    assert_eq!(error_body("a\nb"), "{\"error\":\"a\\nb\",\"code\":-1}");
}

#[test]
fn success_envelope() {
    assert_eq!(
        success_body("Repository updated successfully."),
        "{\"message\":\"Repository updated successfully.\",\"status\":1}"
    );
}

#[test]
fn snapshot_document() {
    let s = CommitSnapshot {
        branch: branch_label(Some("main".to_string())),
        id: "3f2a9c0d".to_string(),
        message: "Fix \"deploy\"\n".to_string(),
        author: "Ada".to_string(),
        email: "ada@example.com".to_string(),
        timestamp: 1700000000,
    };
    let expected = "{\n  \"branch\": \"main\",\n  \"current_commit\": {\n    \"author\": \"Ada\",\n    \"email\": \"ada@example.com\",\n    \"id\": \"3f2a9c0d\",\n    \"message\": \"Fix \\\"deploy\\\"\\n\",\n    \"timestamp\": 1700000000\n  }\n}";
    assert_eq!(s.to_json(), expected);
    assert!(!s.id.is_empty());
}

#[test]
fn snapshot_negative_timestamp_and_detached_head() {
    let s = CommitSnapshot {
        branch: branch_label(None),
        id: "a".to_string(),
        message: String::new(),
        author: String::new(),
        email: String::new(),
        timestamp: -5,
    };
    assert_eq!(s.branch, "HEAD detached");
    assert!(s.to_json().contains("\"branch\": \"HEAD detached\""));
    assert!(s.to_json().contains("\"timestamp\": -5\n"));
    assert_eq!(snapshot_file(), "GIT_COMMIT");
}
