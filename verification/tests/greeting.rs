use greeter::greet;
use greeter::resolve_greeting;

#[test]
fn greets_by_name() {
    assert_eq!(greet("World"), "Hello, World! You've been greeted from Rust!");
}

#[test]
fn greets_empty_name() {
    assert_eq!(greet(""), "Hello, ! You've been greeted from Rust!");
}

#[test]
fn keeps_completed_greeting() {
    let msg = greet("Ada");
    assert_eq!(resolve_greeting(Some(msg.clone())), msg);
}

#[test]
fn fallback_on_worker_failure() {
    assert_eq!(resolve_greeting(None), "Hello!");
}
