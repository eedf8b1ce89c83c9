use rust_core::say_hello;

#[test]
fn say_hello_greets_by_name() {
    assert_eq!(
        say_hello("World".to_string()),
        "Hello, World! Greetings from the Rust Engine Room (Via nodejs)"
    );
}

#[test]
fn say_hello_with_empty_name() {
    assert_eq!(
        say_hello(String::new()),
        "Hello, ! Greetings from the Rust Engine Room (Via nodejs)"
    );
}
