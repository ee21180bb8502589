use reliquary::row_id::{parse_row_id_list, row_id_list_debug};
use reliquary::sql::{
    assignments_statement, delete_row_statement, insert_row_statement, select_field_statement,
    select_ids_statement, update_field_statement, update_row_statement,
};
use reliquary::text::{debug_text_of_str, i64_text, parse_i64};
use reliquary::{DbError, RowId};

#[test]
fn decimal_text() {
    assert_eq!(i64_text(0), "0");
    assert_eq!(i64_text(42), "42");
    assert_eq!(i64_text(-7), "-7");
    assert_eq!(i64_text(i64::MAX), "9223372036854775807");
    assert_eq!(i64_text(i64::MIN), "-9223372036854775808");
    assert_eq!(RowId(1200).to_string(), "1200");
}

#[test]
fn decimal_parsing() {
    assert_eq!(parse_i64("42"), Some(42));
    assert_eq!(parse_i64("+42"), Some(42));
    assert_eq!(parse_i64("-42"), Some(-42));
    assert_eq!(parse_i64("007"), Some(7));
    assert_eq!(parse_i64(""), None);
    assert_eq!(parse_i64("-"), None);
    assert_eq!(parse_i64("+"), None);
    assert_eq!(parse_i64(" 1"), None);
    assert_eq!(parse_i64("1a"), None);
    assert_eq!(parse_i64("9223372036854775807"), Some(i64::MAX));
    assert_eq!(parse_i64("9223372036854775808"), None);
    assert_eq!(parse_i64("-9223372036854775808"), Some(i64::MIN));
    assert_eq!(parse_i64("-9223372036854775809"), None);
    for s in ["0", "12", "-3", "+5", "x", "", "99999999999999999999", "-0"] {
        assert_eq!(parse_i64(s), s.parse::<i64>().ok(), "{}", s);
    }
}

#[test]
fn row_id_lists() {
    assert_eq!(parse_row_id_list("1,2,3"), Some(vec![RowId(1), RowId(2), RowId(3)]));
    assert_eq!(parse_row_id_list("-4"), Some(vec![RowId(-4)]));
    assert_eq!(parse_row_id_list(""), None);
    assert_eq!(parse_row_id_list("1,,2"), None);
    assert_eq!(parse_row_id_list("1, 2"), None);
    assert_eq!(parse_row_id_list("1,2,"), None);
}

#[test]
fn row_id_list_round_trip() {
    let ids = vec![RowId(10), RowId(-3), RowId(0)];
    let text: Vec<String> = ids.iter().map(|id| id.to_string()).collect();
    assert_eq!(parse_row_id_list(&text.join(",")), Some(ids));
}

#[test]
fn debug_texts() {
    assert_eq!(RowId(5).debug_text(), "RowId(5)");
    assert_eq!(RowId(5).debug_text(), format!("{:?}", RowId(5)));
    let ids = vec![RowId(1), RowId(2)];
    assert_eq!(row_id_list_debug(&ids), "[RowId(1), RowId(2)]");
    assert_eq!(row_id_list_debug(&ids), format!("{:?}", ids));
    assert_eq!(row_id_list_debug(&vec![]), "[]");
    assert_eq!(debug_text_of_str("a\"b"), "\"a\\\"b\"");
}

#[test]
fn statements() {
    assert_eq!(insert_row_statement("foo"), "INSERT INTO foo DEFAULT VALUES;");
    assert_eq!(update_field_statement("foo", "bar"), "UPDATE foo SET bar = ?1 WHERE id = ?2");
    assert_eq!(select_ids_statement("foo"), "SELECT id FROM foo");
    assert_eq!(select_field_statement("foo", "bar"), "SELECT bar FROM foo WHERE id = ?1");
    assert_eq!(delete_row_statement("foo"), "DELETE FROM foo WHERE id = ?1");
    let fields = vec!["a".to_string(), "b".to_string()];
    assert_eq!(assignments_statement(&fields, 2), "a = ?2b = ?2");
    assert_eq!(update_row_statement("foo", "a = ?2"), "UPDATE foo SET a = ?2 WHERE id = ?1");
}

#[test]
fn error_messages() {
    assert_eq!(DbError::NoActiveConnection.message(), "no active db connection");
    assert_eq!(
        DbError::EraseDbFile("gone".to_string()).message(),
        "couldn't erase db file: gone"
    );
    assert_eq!(DbError::new("lmao").message(), "lmao");
    assert_eq!(DbError::Sqlite("bad".to_string()).message(), "bad");
}
