//! `com.acme.hello` (native process): the same greeter kind as the wasm
//! twin, answering through node errors and emitted messages.
//!
//! The payload arrives as its JSON text. As in the wasm twin, the outcome of
//! decoding it into a `{"name": ...}` record is handed in as `named` (serde
//! reads that record from a one-element array too, as `["World"]`).

use vstd::prelude::*;
use vstd::string::StringExecFns;

use crate::hello::{greeting, greeting_text, name_of, GREETER};
use crate::json::{json_string_literal, json_string_value, parse_json_string, to_json_string};
use crate::plugin::{is_runtime_error, result_view, runtime_error, Emit, NodeError};
use crate::text::{concat3, text_eq};

verus! {

/// The greeter node kind (`com.acme.hello.greeter`).
pub struct Greeter;

/// The greeter has no user settings.
pub struct GreeterConfig {}

impl Default for GreeterConfig {
    fn default() -> (c: Self)
        ensures
            c == (GreeterConfig {}),
    {
        GreeterConfig {}
    }
}

/// What the process greeter makes of a message on `port`: the JSON text it
/// emits on `out`, or the text of its runtime error.
pub open spec fn greeter_node_output(
    port: Seq<char>,
    payload_json: Seq<char>,
    named: Result<Seq<char>, Seq<char>>,
) -> Result<Seq<char>, Seq<char>> {
    if port != "in"@ {
        Err("unexpected port `"@ + port + "`"@)
    } else {
        match name_of(payload_json, named) {
            Ok(n) => Ok(json_string_literal(greeting_text(n))),
            Err(e) => Err(e),
        }
    }
}

/// Accepts either `"World"` (bare string) or `{"name":"World"}` (object);
/// `named` is the outcome of decoding the payload as the object.
pub fn extract_name(payload_json: &str, named: Result<String, String>) -> (r: Result<String, NodeError>)
    ensures
        match name_of(payload_json@, result_view(named)) {
            Ok(n) => r matches Ok(s) && s@ == n,
            Err(e) => r matches Err(err) && is_runtime_error(err, e),
        },
{
    if let Some(s) = parse_json_string(payload_json) {
        return Ok(s);
    }
    match named {
        Ok(n) => Ok(n),
        Err(e) => {
            let prefix = String::from_str("expected a string or {\"name\": \"...\"} — got: ");
            Err(runtime_error(prefix.concat(e.as_str())))
        },
    }
}

impl Greeter {
    /// Handles one message: only port `in` is accepted; the greeting goes out
    /// on `out` as a JSON string.
    pub fn on_message(&self, port: &str, payload_json: &str, named: Result<String, String>) -> (r:
        Result<Emit, NodeError>)
        ensures
            match greeter_node_output(port@, payload_json@, result_view(named)) {
                Ok(out) => r matches Ok(m) && m.port@ == "out"@ && m.payload_json@ == out,
                Err(e) => r matches Err(err) && is_runtime_error(err, e),
            },
    {
        if !text_eq(port, "in") {
            return Err(runtime_error(concat3("unexpected port `", port, "`")));
        }
        let name = match extract_name(payload_json, named) {
            Ok(n) => n,
            Err(e) => return Err(e),
        };
        let greeting = greeting(name.as_str());
        let payload_json = to_json_string(&greeting).unwrap();
        Ok(Emit { port: String::from_str("out"), payload_json })
    }
}

/// The process greeter behaves as its wasm twin: for the greeter kind on
/// port `in`, both emit the same JSON text or refuse with the same message.
pub proof fn lemma_twins_agree(msg_json: Seq<char>, named: Result<Seq<char>, Seq<char>>)
    ensures
        crate::hello::hello_output(GREETER@, "in"@, msg_json, named) == greeter_node_output(
            "in"@,
            msg_json,
            named,
        ),
{
}

/// A bare JSON string is taken as the name whatever the object reading gave.
pub proof fn lemma_bare_string_is_the_name(
    msg_json: Seq<char>,
    named: Result<Seq<char>, Seq<char>>,
    name: Seq<char>,
)
    requires
        json_string_value(msg_json) == Some(name),
    ensures
        greeter_node_output("in"@, msg_json, named) == Ok::<Seq<char>, Seq<char>>(
            json_string_literal(greeting_text(name)),
        ),
{
}

} // verus!
