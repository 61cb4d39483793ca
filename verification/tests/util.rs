use atlas_client::error::Error;
use atlas_client::error::ValidationFault;
use atlas_client::json::Json;
use atlas_client::util::NonEmptyString;

#[test]
fn non_empty_string_from_empty_fails() {
    let r = NonEmptyString::new("");
    assert!(matches!(r, Err(Error::Validation(ValidationFault::EmptyText))));
}

#[test]
fn non_empty_string_keeps_text() {
    let s = NonEmptyString::new("prod").unwrap();
    assert_eq!(s.as_str(), "prod");
    assert_eq!(s.to_text(), "prod");
    assert_eq!(s.clone().into_string(), "prod");
}

#[test]
fn non_empty_string_of_one_blank() {
    let s = NonEmptyString::new(" ").unwrap();
    assert_eq!(s.as_str(), " ");
}

#[test]
fn non_empty_string_try_from_string() {
    let ok = NonEmptyString::try_from_string("x".to_string()).unwrap();
    assert_eq!(ok.as_str(), "x");
    let r = NonEmptyString::try_from_string(String::new());
    assert!(matches!(r, Err(Error::Validation(ValidationFault::EmptyText))));
}

#[test]
fn non_empty_string_from_json() {
    let read = NonEmptyString::from_json(&Json::Text("x".to_string())).unwrap();
    assert_eq!(read.as_str(), "x");
    assert!(NonEmptyString::from_json(&Json::Text(String::new())).is_none());
    assert!(NonEmptyString::from_json(&Json::Null).is_none());
    assert!(NonEmptyString::from_json(&Json::Number(Some(1))).is_none());
    assert!(matches!(read.to_json(), Json::Text(s) if s == "x"));
}

#[test]
fn non_empty_string_converts_with_std_traits() {
    let s = NonEmptyString::try_from("dev".to_string()).unwrap();
    assert_eq!(s.as_str(), "dev");
    let back: String = s.into();
    assert_eq!(back, "dev");
    let r = NonEmptyString::try_from(String::new());
    assert!(matches!(r, Err(Error::Validation(ValidationFault::EmptyText))));
}
