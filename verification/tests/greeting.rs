use listo_blocks::greeter::{extract_name as extract_name_node, Greeter};
use listo_blocks::hello::{extract_name, greeting, Hello, GREETER};
use listo_blocks::plugin::{NodeError, OnInputEnvelope};

fn envelope(kind_id: &str, port: &str, msg_json: &str) -> OnInputEnvelope {
    OnInputEnvelope {
        kind_id: kind_id.to_string(),
        port: port.to_string(),
        msg_json: msg_json.to_string(),
    }
}

#[test]
fn greeting_formats_name() {
    assert_eq!(greeting("World"), "Hello, World!");
    assert_eq!(greeting(""), "Hello, !");
}

#[test]
fn hello_describe_declares_greeter() {
    let d = Hello::describe();
    assert_eq!(d.extension_id, "com.acme.hello");
    assert_eq!(d.version, "0.1.0");
    assert_eq!(d.kinds.len(), 1);
    assert_eq!(d.kinds[0].kind_id, GREETER);
    assert_eq!(d.kinds[0].display_name.as_deref(), Some("Greeter"));
    assert_eq!(d.kinds[0].inputs, vec!["in".to_string()]);
    assert_eq!(d.kinds[0].outputs, vec!["out".to_string()]);
}

#[test]
fn hello_greets_bare_string() {
    let env = envelope(GREETER, "in", "\"World\"");
    let out = Hello::on_input(&env, Err("unused".to_string())).unwrap();
    assert_eq!(out.len(), 1);
    assert_eq!(out[0].port, "out");
    assert_eq!(out[0].msg_json, "\"Hello, World!\"");
}

#[test]
fn hello_greets_object_name() {
    let env = envelope(GREETER, "in", "{\"name\": \"World\"}");
    let out = Hello::on_input(&env, Ok("World".to_string())).unwrap();
    assert_eq!(out[0].msg_json, "\"Hello, World!\"");
}

#[test]
fn hello_escapes_greeting_as_json() {
    let env = envelope(GREETER, "in", "\"a \\\"quoted\\\" name\"");
    let out = Hello::on_input(&env, Err("unused".to_string())).unwrap();
    assert_eq!(out[0].msg_json, "\"Hello, a \\\"quoted\\\" name!\"");
}

#[test]
fn hello_refuses_unknown_kind() {
    let env = envelope("com.acme.other", "in", "\"World\"");
    let err = Hello::on_input(&env, Err(String::new())).err().unwrap();
    assert_eq!(err, "unknown kind_id `com.acme.other`");
}

#[test]
fn hello_refuses_unknown_port() {
    let env = envelope(GREETER, "side", "\"World\"");
    let err = Hello::on_input(&env, Err(String::new())).err().unwrap();
    assert_eq!(err, "unknown input port `side`");
}

#[test]
fn hello_reports_unreadable_name() {
    let env = envelope(GREETER, "in", "42");
    let err = Hello::on_input(&env, Err("invalid type: integer `42`".to_string())).err().unwrap();
    assert_eq!(err, "expected a string or {\"name\": \"...\"} — got: invalid type: integer `42`");
}

#[test]
fn extract_name_prefers_bare_string() {
    assert_eq!(extract_name("\"Ada\"", Ok("Bob".to_string())), Ok("Ada".to_string()));
    assert_eq!(extract_name(" \"Ada\" ", Err(String::new())), Ok("Ada".to_string()));
    assert_eq!(extract_name("{\"name\":\"Bob\"}", Ok("Bob".to_string())), Ok("Bob".to_string()));
}

#[test]
fn greeter_process_emits_greeting() {
    let emit = Greeter.on_message("in", "\"World\"", Err(String::new())).ok().unwrap();
    assert_eq!(emit.port, "out");
    assert_eq!(emit.payload_json, "\"Hello, World!\"");
}

#[test]
fn greeter_process_refuses_other_port() {
    match Greeter.on_message("out", "\"World\"", Err(String::new())) {
        Err(NodeError::Runtime(m)) => assert_eq!(m, "unexpected port `out`"),
        _ => panic!("expected a runtime error"),
    }
}

#[test]
fn greeter_process_reports_unreadable_name() {
    match extract_name_node("[1]", Err("invalid type: sequence".to_string())) {
        Err(NodeError::Runtime(m)) => {
            assert_eq!(m, "expected a string or {\"name\": \"...\"} — got: invalid type: sequence")
        }
        _ => panic!("expected a runtime error"),
    }
}

#[test]
fn greeter_twins_agree_on_examples() {
    for (msg, named) in [
        ("\"World\"", Err("x".to_string())),
        ("{\"name\":\"Ada\"}", Ok("Ada".to_string())),
        ("7", Err("bad".to_string())),
    ] {
        let wasm = Hello::on_input(&envelope(GREETER, "in", msg), named.clone());
        let process = Greeter.on_message("in", msg, named);
        match (wasm, process) {
            (Ok(out), Ok(emit)) => assert_eq!(out[0].msg_json, emit.payload_json),
            (Err(a), Err(NodeError::Runtime(b))) => assert_eq!(a, b),
            _ => panic!("twins disagree"),
        }
    }
}

#[test]
fn greeting_escapes_control_characters() {
    let env = envelope(GREETER, "in", "\"tab\\there\\u0001\"");
    let out = Hello::on_input(&env, Err(String::new())).unwrap();
    assert_eq!(out[0].msg_json, "\"Hello, tab\\there\\u0001!\"");
    assert_eq!(out[0].msg_json, serde_json::to_string("Hello, tab\there\u{1}!").unwrap());
}
