//! The bridge protocol: where the companion script lies, what the child
//! process is started with, and how its exit status and output are read.
use vstd::prelude::*;
use vstd::string::*;
use crate::json::{
    debug_path, encode_json, is_json_document, json_text, json_value, lossy_text, parse_json,
    path_debug, utf8_lossy,
};
use crate::locator::{join_path, join_spec, string_views};

verus! {

/// Why a call into the bridge failed.
#[derive(Debug, PartialEq, Eq)]
pub enum BridgeError {
    /// The executable's own path or its directory could not be resolved.
    Location(String),
    /// The companion script is absent; holds the path that was checked.
    NotFound(String),
    /// The parameters could not be written as JSON.
    Serialization(String),
    /// The child process could not be started.
    Launch(String),
    /// The child process exited with failure; holds its standard error.
    Script(String),
    /// The child's standard output is not JSON; holds the parser's complaint
    /// and the raw output.
    Parse { detail: String, output: String },
    /// A file could not be read or written.
    Io(String),
}

pub open spec fn bridge_script_rel() -> Seq<char> {
    "python/py/py_bridge.py"@
}

pub open spec fn no_parent_message() -> Seq<char> {
    "Failed to get executable directory"@
}

pub open spec fn message_spec(e: BridgeError) -> Seq<char> {
    match e {
        BridgeError::Location(m) => m@,
        BridgeError::NotFound(p) => "Python script not found at "@ + path_debug(p@),
        BridgeError::Serialization(m) => m@,
        BridgeError::Launch(m) => m@,
        BridgeError::Script(s) => "Python script failed: "@ + s@,
        BridgeError::Parse { detail, output } => "Failed to parse Python output: "@ + detail@
            + ". Output: "@ + output@,
        BridgeError::Io(m) => m@,
    }
}

impl BridgeError {
    /// The text reported to the caller.
    pub fn message(&self) -> (r: String)
        ensures
            r@ == message_spec(*self),
    {
        match self {
            BridgeError::Location(m) => m.clone(),
            BridgeError::NotFound(p) => {
                let r = String::from_str("Python script not found at ");
                let quoted = debug_path(p.as_str());
                r.concat(quoted.as_str())
            },
            BridgeError::Serialization(m) => m.clone(),
            BridgeError::Launch(m) => m.clone(),
            BridgeError::Script(s) => {
                let r = String::from_str("Python script failed: ");
                r.concat(s.as_str())
            },
            BridgeError::Parse { detail, output } => {
                let r = String::from_str("Failed to parse Python output: ");
                let r = r.concat(detail.as_str());
                let r = r.concat(". Output: ");
                r.concat(output.as_str())
            },
            BridgeError::Io(m) => m.clone(),
        }
    }
}

/// The companion script's path under the executable's directory.
pub fn bridge_script_path(exe_dir: &str) -> (r: String)
    ensures
        r@ == join_spec(exe_dir@, bridge_script_rel()),
{
    join_path(exe_dir, "python/py/py_bridge.py")
}

/// Where the companion script should lie. `exe_dir` is `Err` with the
/// platform's message when the executable's path is unknown, and `Ok(None)`
/// when that path has no parent.
pub fn locate_script(exe_dir: Result<Option<String>, String>) -> (r: Result<String, BridgeError>)
    ensures
        exe_dir matches Err(m) ==> r == Err::<String, BridgeError>(BridgeError::Location(m)),
        exe_dir matches Ok(None) ==> (r matches Err(BridgeError::Location(m))
            && m@ == no_parent_message()),
        exe_dir matches Ok(Some(d)) ==> (r matches Ok(p) && p@ == join_spec(
            d@,
            bridge_script_rel(),
        )),
{
    match exe_dir {
        Err(m) => Err(BridgeError::Location(m)),
        Ok(None) => Err(BridgeError::Location(String::from_str("Failed to get executable directory"))),
        Ok(Some(d)) => Ok(bridge_script_path(d.as_str())),
    }
}

/// The parameters as one JSON text.
pub fn encode_params(params: &serde_json::Value) -> (r: Result<String, BridgeError>)
    ensures
        r is Ok,
        r is Ok ==> r->Ok_0@ == json_text(*params),
{
    match encode_json(params) {
        Ok(s) => Ok(s),
        Err(e) => Err(BridgeError::Serialization(e.to_string())),
    }
}

/// The interpreter's arguments: `<script> <command> <params>`, unless the
/// script is absent or the parameters could not be encoded, in that order of
/// precedence.
pub fn prepare_invocation(
    script: String,
    script_exists: bool,
    command: &str,
    params_text: Result<String, BridgeError>,
) -> (r: Result<Vec<String>, BridgeError>)
    ensures
        !script_exists ==> (r matches Err(BridgeError::NotFound(p)) && p@ == script@),
        script_exists && params_text is Err ==> (r matches Err(e) && e == params_text->Err_0),
        script_exists && params_text is Ok ==> (r matches Ok(args)
            && string_views(args@) == seq![script@, command@, params_text->Ok_0@]),
{
    if !script_exists {
        return Err(BridgeError::NotFound(script));
    }
    match params_text {
        Err(e) => Err(e),
        Ok(text) => {
            let ghost sv = script@;
            let mut args: Vec<String> = Vec::new();
            args.push(script);
            args.push(String::from_str(command));
            args.push(text);
            proof {
                assert(string_views(args@) =~= seq![sv, command@, params_text->Ok_0@]);
            }
            Ok(args)
        },
    }
}

/// Reads the reply of a finished child process: its standard error on
/// failure, else its standard output parsed as JSON.
pub fn script_outcome(success: bool, stdout: &[u8], stderr: &[u8]) -> (r: Result<
    serde_json::Value,
    BridgeError,
>)
    ensures
        !success ==> (r matches Err(BridgeError::Script(m)) && m@ == utf8_lossy(stderr@)),
        success && is_json_document(utf8_lossy(stdout@)) ==> r == Ok::<
            serde_json::Value,
            BridgeError,
        >(json_value(utf8_lossy(stdout@))),
        success && !is_json_document(utf8_lossy(stdout@)) ==> (r matches Err(BridgeError::Parse { output, .. })
            && output@ == utf8_lossy(stdout@)),
{
    if !success {
        return Err(BridgeError::Script(lossy_text(stderr)));
    }
    let text = lossy_text(stdout);
    match parse_json(text.as_str()) {
        Ok(v) => Ok(v),
        Err(e) => Err(BridgeError::Parse { detail: e.to_string(), output: text }),
    }
}

} // verus!
