//! The externally invocable operations that go to the bridge script, each as
//! the request it forwards, and the handler of inbound UI messages.
use vstd::prelude::*;
use vstd::string::*;
use crate::json::{entry_views, json_object, json_opt, json_str, object_value, option_value, string_value};
use crate::locator::option_view;

verus! {

/// One call of the bridge script: a command name and its parameters.
pub struct ScriptRequest {
    pub command: String,
    pub params: serde_json::Value,
}

/// An inbound UI message: its `type` discriminant and every other field.
pub struct EditorMessage {
    pub kind: String,
    pub extra: serde_json::Value,
}

/// A bridge request whose parameters are forwarded unchanged.
pub open spec fn forwards(r: ScriptRequest, command: Seq<char>, params: serde_json::Value) -> bool {
    r.command@ == command && r.params == params
}

/// Accepts an inbound UI message; it never fails and changes nothing.
pub fn handle_frontend_message(_message: &EditorMessage) -> (r: Result<(), String>)
    ensures
        r == Ok::<(), String>(()),
{
    Ok(())
}

/// The parameter object of a database query: `db_path`, `query` and `key`,
/// in that order, with `null` for a missing key.
pub open spec fn query_params_spec(
    db_path: Seq<char>,
    query: Seq<char>,
    key: Option<Seq<char>>,
) -> serde_json::Value {
    json_object(
        seq![("db_path"@, json_str(db_path)), ("query"@, json_str(query)), ("key"@, json_opt(key))],
    )
}

/// A database query, sent as `{"db_path", "query", "key"}` under `query_db`.
pub fn query_db(db_path: String, query: String, key: Option<String>) -> (r: ScriptRequest)
    ensures
        r.command@ == "query_db"@,
        r.params == query_params_spec(db_path@, query@, option_view(key)),
{
    let ghost (d, q, k) = (db_path@, query@, option_view(key));
    let mut entries: Vec<(String, serde_json::Value)> = Vec::new();
    entries.push((String::from_str("db_path"), string_value(db_path)));
    entries.push((String::from_str("query"), string_value(query)));
    entries.push((String::from_str("key"), option_value(key)));
    proof {
        assert(entry_views(entries@) =~= seq![
            ("db_path"@, json_str(d)),
            ("query"@, json_str(q)),
            ("key"@, json_opt(k)),
        ]);
    }
    ScriptRequest { command: String::from_str("query_db"), params: object_value(entries) }
}

/// Extraction of story data, forwarded unchanged under `extract_story_data`.
pub fn extract_story_data(params: serde_json::Value) -> (r: ScriptRequest)
    ensures
        forwards(r, "extract_story_data"@, params),
{
    ScriptRequest { command: String::from_str("extract_story_data"), params }
}

/// Extraction of voice, forwarded unchanged under `extract_voice`.
pub fn extract_voice(params: serde_json::Value) -> (r: ScriptRequest)
    ensures
        forwards(r, "extract_voice"@, params),
{
    ScriptRequest { command: String::from_str("extract_voice"), params }
}

/// Extraction of lyrics data, forwarded unchanged under `extract_lyrics_data`.
pub fn extract_lyrics_data(params: serde_json::Value) -> (r: ScriptRequest)
    ensures
        forwards(r, "extract_lyrics_data"@, params),
{
    ScriptRequest { command: String::from_str("extract_lyrics_data"), params }
}

/// Extraction of race story data, forwarded unchanged under `extract_race_story_data`.
pub fn extract_race_story_data(params: serde_json::Value) -> (r: ScriptRequest)
    ensures
        forwards(r, "extract_race_story_data"@, params),
{
    ScriptRequest { command: String::from_str("extract_race_story_data"), params }
}

} // verus!
