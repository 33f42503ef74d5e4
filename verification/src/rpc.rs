//! The rules of the engine's JSON-RPC 2.0 interface: reading a request's
//! text, which method it names, which parameters it must carry, and the
//! error codes and messages a refused or failed request is answered with.
//! Reading requests off the socket, encoding responses, and running the
//! engine happen outside the library.

use vstd::prelude::*;
use vstd::string::StringExecFns;
use crate::text::str_eq;
use vstd::string::StrSliceExecFns;

verus! {

/// The request is not valid JSON.
pub const PARSE_ERROR: i64 = -32700;

/// The method does not exist.
pub const METHOD_NOT_FOUND: i64 = -32601;

/// A required parameter is missing or empty.
pub const INVALID_PARAMS: i64 = -32602;

/// The engine failed while serving the request.
pub const INTERNAL_ERROR: i64 = -32603;

/// A request the engine will serve.
#[derive(Debug, Clone)]
pub enum RpcCall {
    /// Report the shell fingerprint and database statistics.
    Status,
    /// Store a new reflex.
    Teach { intent: String, action: String },
    /// Find the reflex an intent matches, without running it.
    Match { intent: String },
    /// Run the reflex an intent matches.
    Do { intent: String },
    /// List the stored reflexes.
    List,
}

/// The error member of a JSON-RPC response.
#[derive(Debug, Clone)]
pub struct RpcFailure {
    pub code: i64,
    pub message: String,
}

/// What a request for `method` with string parameters `intent` and
/// `action` (empty when absent or not strings) asks for.
pub open spec fn call_for(method: Seq<char>, intent: Seq<char>, action: Seq<char>, r: Result<RpcCall, RpcFailure>) -> bool {
    if method == "status"@ {
        r matches Ok(RpcCall::Status)
    } else if method == "teach"@ {
        if intent.len() == 0 || action.len() == 0 {
            r matches Err(f) && f.code == INVALID_PARAMS && f.message@ == "Missing 'intent' or 'action' params"@
        } else {
            r matches Ok(RpcCall::Teach { intent: i, action: a }) && i@ == intent && a@ == action
        }
    } else if method == "match"@ || method == "do"@ {
        if intent.len() == 0 {
            r matches Err(f) && f.code == INVALID_PARAMS && f.message@ == "Missing 'intent' param"@
        } else if method == "match"@ {
            r matches Ok(RpcCall::Match { intent: i }) && i@ == intent
        } else {
            r matches Ok(RpcCall::Do { intent: i }) && i@ == intent
        }
    } else if method == "list"@ {
        r matches Ok(RpcCall::List)
    } else {
        r matches Err(f) && f.code == METHOD_NOT_FOUND && f.message@ == "Method not found: "@ + method
    }
}

/// What `serde_json` reads in a request's text: the JSON text of its `id`
/// member, and its members `method`, `params.intent` and `params.action`
/// where they are strings (each `None` when absent or of another kind); or
/// the parser's description of why the text is not JSON.
pub uninterp spec fn request_view(text: Seq<char>) -> Result<
    (Option<Seq<char>>, Option<Seq<char>>, Option<Seq<char>>, Option<Seq<char>>),
    Seq<char>,
>;

/// The view of an optional string.
pub open spec fn opt_view(o: Option<String>) -> Option<Seq<char>> {
    match o {
        Some(s) => Some(s@),
        None => None,
    }
}

/// An optional string, or the empty one.
pub open spec fn or_empty(o: Option<Seq<char>>) -> Seq<char> {
    match o {
        Some(s) => s,
        None => Seq::empty(),
    }
}

/// The view of what reading a request gave.
pub open spec fn read_view(r: Result<(Option<String>, Option<String>, Option<String>, Option<String>), String>) -> Result<
    (Option<Seq<char>>, Option<Seq<char>>, Option<Seq<char>>, Option<Seq<char>>),
    Seq<char>,
> {
    match r {
        Ok(q) => Ok((opt_view(q.0), opt_view(q.1), opt_view(q.2), opt_view(q.3))),
        Err(e) => Err(e@),
    }
}

/// `serde_json::from_str` into a `serde_json::Value`, then `Value::get` of
/// `id` (written back as JSON text with `to_string`), and of `method`,
/// `params.intent` and `params.action` with `as_str`; on a parse error, the
/// error's `Display` text.  The contract names the result: it depends on
/// the text alone.
#[verifier::external_body]
fn parse_request(text: &str) -> (r: Result<(Option<String>, Option<String>, Option<String>, Option<String>), String>)
    ensures
        request_view(text@) == read_view(r),
{
    let msg: serde_json::Value = serde_json::from_str(text).map_err(|e| e.to_string())?;
    let text_of = |v: Option<&serde_json::Value>| v.and_then(|x| x.as_str()).map(|x| x.to_string());
    let params = msg.get("params");
    Ok((
        msg.get("id").map(|v| v.to_string()),
        text_of(msg.get("method")),
        text_of(params.and_then(|p| p.get("intent"))),
        text_of(params.and_then(|p| p.get("action"))),
    ))
}

/// Read a request's text: the JSON text of its `id` (if it has one) and the
/// call it names, or the error it is answered with.  Text that is not JSON
/// is answered with a parse error and no `id`; otherwise the request is
/// routed by its `method`, `params.intent` and `params.action`, each taken
/// as empty when absent or not a string.
pub fn handle_request_text(text: &str) -> (r: (Option<String>, Result<RpcCall, RpcFailure>))
    ensures
        request_view(text@) matches Err(d) ==> {
            &&& r.0 is None
            &&& r.1 matches Err(f) && f.code == PARSE_ERROR && f.message@ == "Parse error: "@ + d
        },
        request_view(text@) matches Ok(q) ==> {
            &&& opt_view(r.0) == q.0
            &&& call_for(or_empty(q.1), or_empty(q.2), or_empty(q.3), r.1)
        },
{
    proof {
        reveal_strlit("");
    }
    match parse_request(text) {
        Err(e) => (None, Err(parse_failure(e.as_str()))),
        Ok((id, method, intent, action)) => {
            let m: &str = match &method {
                Some(s) => s.as_str(),
                None => "",
            };
            let i: &str = match &intent {
                Some(s) => s.as_str(),
                None => "",
            };
            let a: &str = match &action {
                Some(s) => s.as_str(),
                None => "",
            };
            assert(m@ == or_empty(opt_view(method)));
            assert(i@ == or_empty(opt_view(intent)));
            assert(a@ == or_empty(opt_view(action)));
            let call = route_request(m, i, a);
            (id, call)
        },
    }
}

/// Route a request: the call it names, or the error it is answered with.
pub fn route_request(method: &str, intent: &str, action: &str) -> (r: Result<RpcCall, RpcFailure>)
    ensures
        call_for(method@, intent@, action@, r),
{
    if str_eq(method, "status") {
        Ok(RpcCall::Status)
    } else if str_eq(method, "teach") {
        if intent.unicode_len() == 0 || action.unicode_len() == 0 {
            Err(RpcFailure { code: INVALID_PARAMS, message: "Missing 'intent' or 'action' params".to_owned() })
        } else {
            Ok(RpcCall::Teach { intent: intent.to_owned(), action: action.to_owned() })
        }
    } else if str_eq(method, "match") || str_eq(method, "do") {
        if intent.unicode_len() == 0 {
            Err(RpcFailure { code: INVALID_PARAMS, message: "Missing 'intent' param".to_owned() })
        } else if str_eq(method, "match") {
            Ok(RpcCall::Match { intent: intent.to_owned() })
        } else {
            Ok(RpcCall::Do { intent: intent.to_owned() })
        }
    } else if str_eq(method, "list") {
        Ok(RpcCall::List)
    } else {
        Err(RpcFailure { code: METHOD_NOT_FOUND, message: "Method not found: ".to_owned().concat(method) })
    }
}

/// The answer to a request that is not valid JSON; `detail` is the
/// parser's description of the problem.
pub fn parse_failure(detail: &str) -> (f: RpcFailure)
    ensures
        f.code == PARSE_ERROR,
        f.message@ == "Parse error: "@ + detail@,
{
    RpcFailure { code: PARSE_ERROR, message: "Parse error: ".to_owned().concat(detail) }
}

/// The label of a call in its failure message.
pub open spec fn failure_prefix(call: RpcCall) -> Seq<char> {
    match call {
        RpcCall::Status => Seq::empty(),
        RpcCall::Teach { .. } => "Teach error: "@,
        RpcCall::Match { .. } => "Match error: "@,
        RpcCall::Do { .. } => "Do error: "@,
        RpcCall::List => "List error: "@,
    }
}

/// The answer to a call the engine failed to serve; `detail` describes the
/// engine's error.  (A status report cannot fail.)
pub fn engine_failure(call: &RpcCall, detail: &str) -> (f: RpcFailure)
    requires
        !(call is Status),
    ensures
        f.code == INTERNAL_ERROR,
        f.message@ == failure_prefix(*call) + detail@,
{
    let prefix = match call {
        RpcCall::Status => "",
        RpcCall::Teach { .. } => "Teach error: ",
        RpcCall::Match { .. } => "Match error: ",
        RpcCall::Do { .. } => "Do error: ",
        RpcCall::List => "List error: ",
    };
    RpcFailure { code: INTERNAL_ERROR, message: prefix.to_owned().concat(detail) }
}

/// A request that names a served method with its parameters is never
/// answered with "method not found", and an unknown method always is.
pub proof fn law_known_methods_are_routed(method: Seq<char>, intent: Seq<char>, action: Seq<char>, r: Result<RpcCall, RpcFailure>)
    requires
        call_for(method, intent, action, r),
    ensures
        (r matches Err(f) && f.code == METHOD_NOT_FOUND) <==> !(method == "status"@ || method == "teach"@ || method
            == "match"@ || method == "do"@ || method == "list"@),
{
}

} // verus!
