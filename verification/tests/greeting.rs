#[test]
fn hello_world() {
    assert_eq!(wasm_core::hello("World"), "Hello, World from Rust!");
}

#[test]
fn hello_empty_name() {
    let text = wasm_core::hello("");
    assert_eq!(text, "Hello,  from Rust!");
    assert_eq!(text.len(), 18);
}

#[test]
fn hello_keeps_control_characters() {
    assert_eq!(wasm_core::hello("a\tb\nc\0"), "Hello, a\tb\nc\0 from Rust!");
}

#[test]
fn hello_keeps_surrounding_spaces_and_braces() {
    assert_eq!(wasm_core::hello("  {name}  "), "Hello,   {name}   from Rust!");
}

#[test]
fn hello_keeps_text_beyond_ascii() {
    let text = wasm_core::hello("Zoë 🌍");
    assert_eq!(text, "Hello, Zoë 🌍 from Rust!");
    assert_eq!(text.chars().count(), "Zoë 🌍".chars().count() + 18);
}

#[test]
fn hello_places_the_name_between_opening_and_closing() {
    let name = "Ada Lovelace";
    let text = wasm_core::hello(name);
    assert!(text.starts_with("Hello, "));
    assert!(text.ends_with(" from Rust!"));
    assert_eq!(&text[7..7 + name.len()], name);
    assert_eq!(text.len(), name.len() + 18);
}

#[test]
fn hello_repeats_its_result() {
    let first = wasm_core::hello("World");
    let second = wasm_core::hello("World");
    assert_eq!(first, second);
}

#[test]
fn hello_leaves_its_argument_untouched() {
    let name = String::from("World");
    let text = wasm_core::hello(&name);
    assert_eq!(name, "World");
    assert_ne!(text, name);
}
