use runjs::headers::Headers;

fn pair(name: &str, value: &str) -> (String, String) {
    (name.to_string(), value.to_string())
}

#[test]
fn new_headers_are_empty() {
    let headers = Headers::new();
    assert_eq!(headers.len(), 0);
    assert!(headers.is_empty());
    assert_eq!(headers.get(&"a".to_string()), None);
    assert_eq!(headers.to_pairs(), vec![]);
}

#[test]
fn a_new_name_goes_to_the_end() {
    let mut headers = Headers::new();
    headers.insert("b".to_string(), "1".to_string());
    headers.insert("a".to_string(), "2".to_string());
    assert_eq!(headers.len(), 2);
    assert!(!headers.is_empty());
    assert_eq!(headers.name_at(0), "b");
    assert_eq!(headers.value_at(0), "1");
    assert_eq!(headers.name_at(1), "a");
    assert_eq!(headers.value_at(1), "2");
}

#[test]
fn a_known_name_keeps_its_place_and_takes_the_value() {
    let mut headers = Headers::new();
    headers.insert("a".to_string(), "1".to_string());
    headers.insert("b".to_string(), "2".to_string());
    headers.insert("a".to_string(), "3".to_string());
    assert_eq!(headers.to_pairs(), vec![pair("a", "3"), pair("b", "2")]);
    assert_eq!(headers.get(&"a".to_string()), Some(&"3".to_string()));
    assert_eq!(headers.get(&"b".to_string()), Some(&"2".to_string()));
    assert_eq!(headers.get(&"A".to_string()), None);
}

#[test]
fn pairs_are_collected_in_order() {
    let headers = Headers::from_pairs(vec![pair("x", "1"), pair("y", "2"), pair("x", "3")]);
    assert_eq!(headers.to_pairs(), vec![pair("x", "3"), pair("y", "2")]);
    let same = Headers::from_pairs(headers.to_pairs());
    assert_eq!(same, headers);
}
