use listo_blocks::wasm_demo::{Demo, DemoKind, ADD, DOUBLE};

#[test]
fn demo_describe_declares_two_kinds() {
    let d = Demo::describe();
    assert_eq!(d.extension_id, "com.acme.wasm-demo");
    assert_eq!(d.version, "0.1.0");
    assert_eq!(d.kinds.len(), 2);
    assert_eq!(d.kinds[0].kind_id, DOUBLE);
    assert_eq!(d.kinds[0].display_name.as_deref(), Some("Double"));
    assert_eq!(d.kinds[1].kind_id, ADD);
    assert_eq!(d.kinds[1].display_name.as_deref(), Some("Add"));
    for k in &d.kinds {
        assert_eq!(k.inputs, vec!["in".to_string()]);
        assert_eq!(k.outputs, vec!["out".to_string()]);
    }
}

#[test]
fn demo_routes_kinds() {
    assert!(matches!(Demo::kind_of("com.acme.wasm-demo.double"), Ok(DemoKind::Double)));
    assert!(matches!(Demo::kind_of("com.acme.wasm-demo.add"), Ok(DemoKind::Add)));
    match Demo::kind_of("com.acme.wasm-demo.mul") {
        Err(e) => assert_eq!(e, "unknown kind_id `com.acme.wasm-demo.mul`"),
        Ok(_) => panic!("unexpected kind"),
    }
}
