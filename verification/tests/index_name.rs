use polodb_python::decimal::decimal_string;
use polodb_python::index_name::{direction_string, generate_index_name, index_name, IndexDirection, IndexKey};

fn key(field: &str, direction: IndexDirection) -> IndexKey {
    IndexKey { field: field.to_string(), direction }
}

#[test]
fn single_ascending_key() {
    let keys = vec![key("title", IndexDirection::Int64(1))];
    assert_eq!(index_name(None, &keys), "title_1");
}

#[test]
fn several_keys_are_joined() {
    let keys = vec![
        key("author", IndexDirection::Int64(1)),
        key("year", IndexDirection::Int32(-1)),
        key("title", IndexDirection::Text("\"text\"".to_string())),
    ];
    assert_eq!(generate_index_name(&keys), "author_1_year_-1_title_\"text\"");
}

#[test]
fn given_name_wins() {
    let keys = vec![key("title", IndexDirection::Int64(1))];
    assert_eq!(index_name(Some("by_title".to_string()), &keys), "by_title");
}

#[test]
fn no_keys_give_empty_name() {
    assert_eq!(generate_index_name(&Vec::new()), "");
}

#[test]
fn directions_in_decimal() {
    assert_eq!(direction_string(&IndexDirection::Int32(i32::MIN)), "-2147483648");
    assert_eq!(direction_string(&IndexDirection::Int64(0)), "0");
    assert_eq!(direction_string(&IndexDirection::Text("1.5".to_string())), "1.5");
}

#[test]
fn decimal_text_matches_display() {
    for v in [0i64, 1, -1, 9, 10, 99, 100, -105, 1234567890, i64::MAX, i64::MIN] {
        assert_eq!(decimal_string(v), v.to_string());
    }
}
