use bridge_shell::commands::{
    extract_lyrics_data, extract_race_story_data, extract_story_data, extract_voice,
    handle_frontend_message, query_db, EditorMessage,
};

fn parse(s: &str) -> serde_json::Value {
    serde_json::from_str(s).unwrap()
}

#[test]
fn query_db_builds_object() {
    let r = query_db("a.db".to_string(), "select 1".to_string(), Some("k1".to_string()));
    assert_eq!(r.command, "query_db");
    assert_eq!(r.params, parse(r#"{"db_path": "a.db", "query": "select 1", "key": "k1"}"#));
}

#[test]
fn query_db_missing_key_is_null() {
    let r = query_db("a.db".to_string(), "q".to_string(), None);
    assert_eq!(r.params, parse(r#"{"db_path": "a.db", "query": "q", "key": null}"#));
}

#[test]
fn extract_commands_forward_verbatim() {
    let p = parse(r#"{"id": 7, "tags": ["x"]}"#);
    let r = extract_story_data(p.clone());
    assert_eq!((r.command.as_str(), &r.params), ("extract_story_data", &p));
    let r = extract_voice(p.clone());
    assert_eq!((r.command.as_str(), &r.params), ("extract_voice", &p));
    let r = extract_lyrics_data(p.clone());
    assert_eq!((r.command.as_str(), &r.params), ("extract_lyrics_data", &p));
    let r = extract_race_story_data(p.clone());
    assert_eq!((r.command.as_str(), &r.params), ("extract_race_story_data", &p));
}

#[test]
fn frontend_message_always_accepted() {
    let m = EditorMessage { kind: "save".to_string(), extra: parse(r#"{"doc": "x"}"#) };
    assert_eq!(handle_frontend_message(&m), Ok(()));
    let m = EditorMessage { kind: String::new(), extra: serde_json::Value::Null };
    assert_eq!(handle_frontend_message(&m), Ok(()));
}
