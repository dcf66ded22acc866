use dbent::Key;

#[test]
fn test_key() {
    let id = Key::new(1);
    assert_eq!(id.0, Some(1));
    assert_eq!(id.to_text(), "1");

    let id = Key::from(Some(2));
    assert_eq!(id.0, Some(2));
    assert_eq!(id.to_text(), "2");

    let id = Key::from(&Some(3));
    assert_eq!(id.0, Some(3));
    assert_eq!(id.to_text(), "3");
}

#[test]
fn test_key_display() {
    let id = Key::new(1);
    assert_eq!(id.to_text(), "1");
    let id = Key::<i32>(None);
    assert_eq!(id.to_text(), "None");
}

#[test]
fn test_key_from_option() {
    let id = Key::from(Some(1));
    assert_eq!(id, Key::new(1));
    let id = Key::<i32>::from(None);
    assert_eq!(id, Key::<i32>(None));
}

#[test]
fn test_key_from_reference() {
    let id = Key::from(&Some(1));
    assert_eq!(id, Key::new(1));
    let id = Key::from(&None);
    assert_eq!(id, Key::<i32>(None));
}

#[test]
fn test_key_default_is_absent() {
    let id = Key::<i32>::default();
    assert_eq!(id.0, None);
    assert!(id.is_none());
    assert!(!id.is_some());
}

#[test]
fn test_key_unwrap() {
    let id = Key::new(41);
    assert!(id.is_some());
    assert_eq!(id.unwrap(), 41);
}

#[test]
fn test_key_text_decimal_edges() {
    assert_eq!(Key::new(0usize).to_text(), "0");
    assert_eq!(Key::new(10usize).to_text(), "10");
    assert_eq!(Key::new(18446744073709551615u64).to_text(), "18446744073709551615");
    assert_eq!(Key::new(-5).to_text(), "-5");
    assert_eq!(Key::new(i32::MIN).to_text(), "-2147483648");
    assert_eq!(Key::new(String::from("abc")).to_text(), "abc");
}
