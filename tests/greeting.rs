use hello_wasm::greeting;

#[test]
fn greeting_world() {
    assert_eq!(greeting("World"), "Hello, World");
}

#[test]
fn greeting_empty_name() {
    assert_eq!(greeting(""), "Hello, ");
}

#[test]
fn greeting_keeps_name_verbatim() {
    assert_eq!(greeting("<b>Ünïcode, \"quoted\"</b>"), "Hello, <b>Ünïcode, \"quoted\"</b>");
}
