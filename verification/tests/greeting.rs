use primer::greeting::greet;

#[test]
fn greets_a_name() {
    assert_eq!(greet("John Doe"), "Good morning John Doe");
}

#[test]
fn greets_the_empty_name() {
    assert_eq!(greet(""), "Good morning ");
}
