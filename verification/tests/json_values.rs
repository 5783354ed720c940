use weather::date::Date;
use weather::json::{Json, JsonNumber, Member};

fn member(name: &str, value: Json) -> Member {
    Member { name: name.to_string(), value }
}

#[test]
fn get_finds_the_first_member_of_that_name() {
    let value = Json::Object(vec![
        member("a", Json::Bool(true)),
        member("b", Json::Text("first".to_string())),
        member("b", Json::Text("second".to_string())),
    ]);
    assert_eq!(value.get("b").and_then(|v| v.as_str()), Some("first"));
    assert!(matches!(value.get("a"), Some(Json::Bool(true))));
    assert!(value.get("c").is_none());
    assert!(value.get("").is_none());
    assert!(Json::Null.get("a").is_none());
    assert!(Json::Array(vec![]).get("a").is_none());
}

#[test]
fn nested_lookups_follow_each_name() {
    let value = Json::Object(vec![member(
        "a",
        Json::Object(vec![member("b", Json::Object(vec![member("c", Json::Bool(false))]))]),
    )]);
    assert!(matches!(value.get2("a", "b").and_then(|v| v.get("c")), Some(Json::Bool(false))));
    assert!(matches!(value.get2("a", "b"), Some(Json::Object(_))));
    assert!(value.get2("a", "c").is_none());
    assert!(value.get2("b", "b").is_none());
}

#[test]
fn readings_of_each_kind_of_value() {
    let number = Json::Number(JsonNumber { integer: Some(7), bits: 7f64.to_bits() });
    assert_eq!(number.as_i64(), Some(7));
    assert_eq!(number.as_bits(), Some(7f64.to_bits()));
    assert!(number.as_str().is_none());
    assert!(number.as_array().is_none());
    let fraction = Json::Number(JsonNumber { integer: None, bits: 0.5f64.to_bits() });
    assert_eq!(fraction.as_i64(), None);
    assert_eq!(fraction.as_bits().map(f64::from_bits), Some(0.5));
    let text = Json::Text("7".to_string());
    assert_eq!(text.as_str(), Some("7"));
    assert_eq!(text.as_i64(), None);
    assert_eq!(text.as_bits(), None);
    let list = Json::Array(vec![Json::Null, Json::Bool(true)]);
    assert_eq!(list.as_array().map(|items| items.len()), Some(2));
    assert!(matches!(list.last(), Some(Json::Bool(true))));
    assert!(Json::Array(vec![]).last().is_none());
    assert!(text.last().is_none());
}

#[test]
fn dates_that_exist() {
    assert_eq!(Date::new(2024, 2, 29), Some(Date { year: 2024, month: 2, day: 29 }));
    assert_eq!(Date::new(2023, 2, 29), None);
    assert_eq!(Date::new(1900, 2, 29), None);
    assert_eq!(Date::new(2000, 2, 29), Some(Date { year: 2000, month: 2, day: 29 }));
    assert_eq!(Date::new(-4, 2, 29), Some(Date { year: -4, month: 2, day: 29 }));
    assert_eq!(Date::new(2024, 4, 31), None);
    assert_eq!(Date::new(2024, 12, 31), Some(Date { year: 2024, month: 12, day: 31 }));
    assert_eq!(Date::new(2024, 0, 1), None);
    assert_eq!(Date::new(2024, 13, 1), None);
    assert_eq!(Date::new(2024, 1, 0), None);
    assert_eq!(Date::new(262143, 1, 1), None);
    assert_eq!(Date::new(-262144, 1, 1), None);
    assert!(Date::new(262142, 12, 31).is_some());
    assert!(Date::new(-262143, 1, 1).is_some());
}

#[test]
fn dates_are_ordered_by_year_month_day() {
    let a = Date::new(2024, 5, 10).unwrap();
    assert!(Date::new(2023, 12, 31).unwrap().is_before(&a));
    assert!(Date::new(2024, 4, 30).unwrap().is_before(&a));
    assert!(Date::new(2024, 5, 9).unwrap().is_before(&a));
    assert!(!a.is_before(&a));
    assert!(!Date::new(2024, 5, 11).unwrap().is_before(&a));
    assert!(!Date::new(2025, 1, 1).unwrap().is_before(&a));
}
