use task_core::greeting::greet;

#[test]
fn greet_world() {
    assert_eq!(greet("World"), "Hello, World! You've been greeted from Rust!");
}

#[test]
fn greet_empty() {
    assert_eq!(greet(""), "Hello, ! You've been greeted from Rust!");
}

#[test]
fn greet_is_deterministic() {
    assert_eq!(greet("same"), greet("same"));
}

#[test]
fn greet_no_escaping_quotes() {
    assert_eq!(
        greet("a \"quoted\" name"),
        "Hello, a \"quoted\" name! You've been greeted from Rust!"
    );
}

#[test]
fn greet_no_escaping_markup_and_backslash() {
    assert_eq!(
        greet("<b>\\x&'"),
        "Hello, <b>\\x&'! You've been greeted from Rust!"
    );
}

#[test]
fn greet_passes_name_through_verbatim() {
    let name = "{}%s\n\t";
    let out = greet(name);
    assert_eq!(&out[7..7 + name.len()], name);
}
