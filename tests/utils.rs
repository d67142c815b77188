#[test]
fn test_macro_f() {
    let name = "Alice";
    let age = 25;
    let msg = format!("Hello, {name}, you are {age} years old!");
    assert_eq!(msg, "Hello, Alice, you are 25 years old!");
}
