use reactor::decimal::i32_to_string;
use reactor::model::{parse_input, Input};

#[test]
fn parse_recognizes_the_three_tokens() {
    assert!(matches!(
        parse_input(&"+".to_string()),
        Input::Increment
    ));
    assert!(matches!(
        parse_input(&"-".to_string()),
        Input::Decrement
    ));
    assert!(matches!(parse_input(&"quit".to_string()), Input::Quit));
}

#[test]
fn parse_carries_anything_else_through() {
    assert!(matches!(
        parse_input(&"hello".to_string()),
        Input::Other(s) if s == "hello"
    ));
    assert!(matches!(
        parse_input(&String::new()),
        Input::Other(s) if s.is_empty()
    ));
    assert!(matches!(
        parse_input(&"QUIT".to_string()),
        Input::Other(s) if s == "QUIT"
    ));
}

#[test]
fn decimal_rendering_matches_the_usual_notation() {
    assert_eq!(i32_to_string(0), "0".to_string());
    assert_eq!(i32_to_string(5), "5".to_string());
    assert_eq!(i32_to_string(10), "10".to_string());
    assert_eq!(i32_to_string(-1), "-1".to_string());
    assert_eq!(i32_to_string(1203), "1203".to_string());
    assert_eq!(i32_to_string(i32::MAX), "2147483647".to_string());
    assert_eq!(i32_to_string(i32::MIN), "-2147483648".to_string());
}
