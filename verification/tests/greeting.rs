use native_commands::greet;

#[test]
fn greets_world() {
    assert_eq!(greet("World"), "Hello, World! You've been greeted from Rust!");
}

#[test]
fn greets_the_empty_name() {
    assert_eq!(greet(""), "Hello, ! You've been greeted from Rust!");
}

#[test]
fn keeps_the_name_as_given() {
    assert_eq!(greet("  Ada  "), "Hello,   Ada  ! You've been greeted from Rust!");
    assert_eq!(greet("{}"), "Hello, {}! You've been greeted from Rust!");
    assert_eq!(greet("a\nb"), "Hello, a\nb! You've been greeted from Rust!");
}

#[test]
fn greets_names_beyond_ascii() {
    assert_eq!(greet("Zoë"), "Hello, Zoë! You've been greeted from Rust!");
    assert_eq!(greet("世界"), "Hello, 世界! You've been greeted from Rust!");
}

#[test]
fn is_the_plain_concatenation() {
    for name in ["World", "", "x", "Hello, ", "! You've been greeted from Rust!"] {
        let expected = format!("{}{}{}", "Hello, ", name, "! You've been greeted from Rust!");
        assert_eq!(greet(name), expected);
    }
}

#[test]
fn is_as_long_as_the_name_and_the_frame() {
    for name in ["", "a", "World", "Zoë"] {
        assert_eq!(greet(name).chars().count(), name.chars().count() + 39);
    }
}

#[test]
fn greets_different_names_differently() {
    assert_ne!(greet("World"), greet("world"));
    assert_ne!(greet("a"), greet("a "));
}

#[test]
fn greets_a_long_name() {
    let name = "n".repeat(10_000);
    let text = greet(&name);
    assert!(text.starts_with("Hello, nnn"));
    assert!(text.ends_with("nnn! You've been greeted from Rust!"));
    assert_eq!(text.len(), 10_039);
}
