//! `com.acme.hello` (wasm): the greeter kind takes a name on port `in`
//! and emits `"Hello, <name>!"` on port `out`.
//!
//! A name arrives either as a bare JSON string (`"World"`) or as an object
//! with a `name` field (`{"name": "World"}`). The object form is decoded by
//! serde into the block's own record type outside this library; its outcome
//! (the name, or serde's error text) is handed in as `named`. Serde's record
//! reading also accepts a one-element array (`["World"]`), and so does the
//! greeter.

use vstd::prelude::*;
use vstd::string::StringExecFns;

use crate::json::{json_string_literal, json_string_value, parse_json_string, to_json_string};
use crate::plugin::{result_view, DescribeResponse, KindDecl, OnInputEnvelope, OutputMsg};
use crate::text::{concat3, text_eq};

verus! {

/// The kind id of the greeter node.
pub const GREETER: &'static str = "com.acme.hello.greeter";

/// The wasm hello block.
pub struct Hello;

/// The greeting for `name`.
pub open spec fn greeting_text(name: Seq<char>) -> Seq<char> {
    "Hello, "@ + name + "!"@
}

/// The text put in front of serde's error when neither accepted shape reads.
pub open spec fn name_error_prefix() -> Seq<char> {
    "expected a string or {\"name\": \"...\"} — got: "@
}

/// The name a message carries: a bare JSON string first, else the outcome of
/// reading it as an object with a `name` field (`named`), whose error is
/// reported behind [`name_error_prefix`].
pub open spec fn name_of(msg_json: Seq<char>, named: Result<Seq<char>, Seq<char>>) -> Result<
    Seq<char>,
    Seq<char>,
> {
    match json_string_value(msg_json) {
        Some(s) => Ok(s),
        None => match named {
            Ok(n) => Ok(n),
            Err(e) => Err(name_error_prefix() + e),
        },
    }
}

/// What the greeter makes of a message: the JSON text it emits on `out`, or
/// the error text.
pub open spec fn greeter_output(msg_json: Seq<char>, named: Result<Seq<char>, Seq<char>>) -> Result<
    Seq<char>,
    Seq<char>,
> {
    match name_of(msg_json, named) {
        Ok(n) => Ok(json_string_literal(greeting_text(n))),
        Err(e) => Err(e),
    }
}

/// What the wasm block answers to an envelope: the JSON text of its single
/// output on `out`, or the error text.
pub open spec fn hello_output(
    kind_id: Seq<char>,
    port: Seq<char>,
    msg_json: Seq<char>,
    named: Result<Seq<char>, Seq<char>>,
) -> Result<Seq<char>, Seq<char>> {
    if kind_id != GREETER@ {
        Err("unknown kind_id `"@ + kind_id + "`"@)
    } else if port != "in"@ {
        Err("unknown input port `"@ + port + "`"@)
    } else {
        greeter_output(msg_json, named)
    }
}

/// `"Hello, <name>!"`.
pub fn greeting(name: &str) -> (g: String)
    ensures
        g@ == greeting_text(name@),
{
    concat3("Hello, ", name, "!")
}

/// Accepts either `"World"` or `{"name": "World"}`; `named` is the outcome
/// of reading `msg_json` as an object with a `name` field.
pub fn extract_name(msg_json: &str, named: Result<String, String>) -> (r: Result<String, String>)
    ensures
        result_view(r) == name_of(msg_json@, result_view(named)),
{
    if let Some(s) = parse_json_string(msg_json) {
        return Ok(s);
    }
    match named {
        Ok(n) => Ok(n),
        Err(e) => {
            let prefix = String::from_str("expected a string or {\"name\": \"...\"} — got: ");
            Err(prefix.concat(e.as_str()))
        },
    }
}

impl Hello {
    /// The block's one kind: the greeter, with input `in` and output `out`.
    pub fn describe() -> (d: DescribeResponse)
        ensures
            d.extension_id@ == "com.acme.hello"@,
            d.version@ == "0.1.0"@,
            d.kinds@.len() == 1,
            d.kinds@[0].kind_id@ == GREETER@,
            d.kinds@[0].display_name matches Some(n) && n@ == "Greeter"@,
            d.kinds@[0].inputs@.len() == 1,
            d.kinds@[0].inputs@[0]@ == "in"@,
            d.kinds@[0].outputs@.len() == 1,
            d.kinds@[0].outputs@[0]@ == "out"@,
    {
        let kind = KindDecl {
            kind_id: String::from_str(GREETER),
            display_name: Some(String::from_str("Greeter")),
            inputs: vec![String::from_str("in")],
            outputs: vec![String::from_str("out")],
        };
        DescribeResponse {
            extension_id: String::from_str("com.acme.hello"),
            version: String::from_str("0.1.0"),
            kinds: vec![kind],
        }
    }

    /// Answers one envelope: checks the kind and the port, reads the name and
    /// emits one greeting on `out` as a JSON string.
    pub fn on_input(env: &OnInputEnvelope, named: Result<String, String>) -> (r: Result<
        Vec<OutputMsg>,
        String,
    >)
        ensures
            match hello_output(env.kind_id@, env.port@, env.msg_json@, result_view(named)) {
                Ok(out) => r matches Ok(v) && v@.len() == 1 && v@[0].port@ == "out"@
                    && v@[0].msg_json@ == out,
                Err(e) => r matches Err(m) && m@ == e,
            },
    {
        if !text_eq(env.kind_id.as_str(), GREETER) {
            return Err(concat3("unknown kind_id `", env.kind_id.as_str(), "`"));
        }
        if !text_eq(env.port.as_str(), "in") {
            return Err(concat3("unknown input port `", env.port.as_str(), "`"));
        }
        let name = match extract_name(env.msg_json.as_str(), named) {
            Ok(n) => n,
            Err(e) => return Err(e),
        };
        let greeting = greeting(name.as_str());
        let msg_json = to_json_string(&greeting).unwrap();
        Ok(vec![OutputMsg { port: String::from_str("out"), msg_json }])
    }
}

} // verus!
