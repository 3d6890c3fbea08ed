use command_channel::greeting::greet;

#[test]
fn greet_ada() {
    assert_eq!(greet("Ada"), "Hello, Ada! You've been greeted from Rust!");
}

#[test]
fn greet_takes_any_name() {
    assert_eq!(greet(""), "Hello, ! You've been greeted from Rust!");
    assert_eq!(greet("Zoë & Co."), "Hello, Zoë & Co.! You've been greeted from Rust!");
    assert_eq!(greet("{}"), "Hello, {}! You've been greeted from Rust!");
}
