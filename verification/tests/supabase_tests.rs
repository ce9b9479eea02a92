use brain_dump::supabase::{
    active_context_json, insert_outcome, note_body, notes_endpoint, prepare_insert, request_failed,
};

#[test]
fn unconfigured_database_is_refused() {
    let e = prepare_insert("", "key", "hello", "desktop_db_paste", None).unwrap_err();
    assert_eq!(e, "Supabase not configured");
    let e = prepare_insert("https://x.supabase.co", "", "hello", "desktop_db_paste", None).unwrap_err();
    assert_eq!(e, "Supabase not configured");
}

#[test]
fn endpoint_drops_trailing_slashes() {
    assert_eq!(notes_endpoint("https://x.supabase.co"), "https://x.supabase.co/rest/v1/notes");
    assert_eq!(notes_endpoint("https://x.supabase.co///"), "https://x.supabase.co/rest/v1/notes");
    assert_eq!(notes_endpoint("/"), "/rest/v1/notes");
    assert_eq!(notes_endpoint("https://é.example/a/"), "https://é.example/a/rest/v1/notes");
}

#[test]
fn prepared_request() {
    let q = prepare_insert("https://x.supabase.co/", "eyJ", "bonjour", "desktop_db_paste", None)
        .unwrap();
    assert_eq!(q.url, "https://x.supabase.co/rest/v1/notes");
    assert_eq!(
        q.body,
        r#"{"context":{},"source":"desktop_db_paste","transcript":"bonjour"}"#
    );
    let h: Vec<(&str, &str)> = q.headers.iter().map(|(k, v)| (k.as_str(), v.as_str())).collect();
    assert_eq!(
        h,
        vec![
            ("apikey", "eyJ"),
            ("Authorization", "Bearer eyJ"),
            ("Content-Type", "application/json"),
            ("Prefer", "return=minimal"),
        ]
    );
}

#[test]
fn answers_are_judged_by_status() {
    assert_eq!(insert_outcome(201, Some("Created"), ""), Ok(()));
    assert_eq!(insert_outcome(200, Some("OK"), "x"), Ok(()));
    assert_eq!(
        insert_outcome(404, Some("Not Found"), "no table"),
        Err("Supabase error (404 Not Found): no table".to_string())
    );
    assert_eq!(
        insert_outcome(599, None, ""),
        Err("Supabase error (599 <unknown status code>): ".to_string())
    );
    assert!(insert_outcome(300, Some("Multiple Choices"), "").is_err());
    assert!(insert_outcome(199, None, "").is_err());
}

#[test]
fn request_failure_text() {
    assert_eq!(request_failed("timeout"), "Supabase request failed: timeout");
}

#[test]
fn request_with_context() {
    let ctx = active_context_json("other", None);
    let q = prepare_insert("https://x.supabase.co/", "k", "hello", "desktop_db_paste", Some(&ctx))
        .unwrap();
    assert_eq!(q.url, "https://x.supabase.co/rest/v1/notes");
    assert_eq!(
        q.body,
        r#"{"context":{"os":"other"},"source":"desktop_db_paste","transcript":"hello"}"#
    );
}

#[test]
fn body_escapes_texts() {
    assert_eq!(
        note_body("desktop_db_paste", "il a dit \"oui\"\nfin", None),
        r#"{"context":{},"source":"desktop_db_paste","transcript":"il a dit \"oui\"\nfin"}"#
    );
}

#[test]
fn context_texts() {
    assert_eq!(active_context_json("windows", None), r#"{"os":"windows"}"#);
    assert_eq!(
        active_context_json("windows", Some(("Cursor.exe", "main.rs - \"brain\""))),
        r#"{"app":"Cursor.exe","os":"windows","window":"main.rs - \"brain\""}"#
    );
}
