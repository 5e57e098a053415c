use filebelt_database::error::DatabaseError;
use filebelt_database::error::Fault;
use filebelt_database::fence::FenceGenerations;
use filebelt_database::id::draw_ids;
use filebelt_database::id::render_label;
use filebelt_database::id::render_pair;
use filebelt_database::id::render_scoped;
use filebelt_database::id::Uuid;
use filebelt_database::json::encoded_length;
use filebelt_database::json::Json;
use filebelt_database::json::Member;
use filebelt_database::json::Number;
use filebelt_database::progress::sum;
use filebelt_database::row::affected;
use filebelt_database::row::drawn;
use filebelt_database::row::each_exactly_one;
use filebelt_database::row::exactly_one;
use filebelt_database::row::many;
use filebelt_database::row::optional;
use filebelt_database::row::required;
use filebelt_database::row::single;
use filebelt_database::row::Cell;
use filebelt_database::row::Column;
use filebelt_database::row::Reply;
use filebelt_database::row::Row;
use filebelt_database::text::any_white_space;
use filebelt_database::text::ascii_graphic;
use filebelt_database::text::email_sized;
use filebelt_database::text::normalized_email;
use filebelt_database::text::sized;
use filebelt_database::text::trimmed_text;

fn cell(name: &str, cell: Cell) -> Row {
    Row {
        columns: vec![Column {
            name: name.to_owned(),
            cell,
        }],
    }
}

#[test]
fn identifiers_have_their_canonical_text() {
    let value = Uuid {
        value: 0x0123_4567_89ab_cdef_0123_4567_89ab_cdef,
    };
    assert_eq!(value.text(), "01234567-89ab-cdef-0123-456789abcdef");
    assert_eq!(Uuid::nil().text(), "00000000-0000-0000-0000-000000000000");
    assert_eq!(
        uuid::Uuid::from_u128(value.value).to_string(),
        value.text()
    );
    assert_eq!(
        render_label("job:", value),
        "job:01234567-89ab-cdef-0123-456789abcdef"
    );
    assert_eq!(
        render_pair(Uuid::nil(), value),
        "00000000-0000-0000-0000-000000000000:01234567-89ab-cdef-0123-456789abcdef"
    );
    assert_eq!(
        render_scoped(value, "tool"),
        "01234567-89ab-cdef-0123-456789abcdef:tool"
    );
}

#[test]
fn drawn_identifiers_are_marked_as_random() {
    let ids = draw_ids(3);
    assert_eq!(ids.len(), 3);
    assert_ne!(ids[0], ids[1]);
    for id in ids {
        let text = id.text();
        let digits: Vec<char> = text.chars().collect();
        assert_eq!(digits[14], '4');
        assert!(matches!(digits[19], '8' | '9' | 'a' | 'b'));
    }
    assert!(draw_ids(0).is_empty());
}

#[test]
fn addresses_are_compared_without_case_and_outer_space() {
    assert_eq!(normalized_email("  Someone@Example.ORG\t"), "someone@example.org");
    assert_eq!(normalized_email("\u{dc}bung@example.org"), "\u{fc}bung@example.org");
    assert_eq!(trimmed_text(" a b "), "a b");
    assert!(email_sized("a"));
    assert!(!email_sized(""));
    assert!(email_sized(&"x".repeat(320)));
    assert!(!email_sized(&"x".repeat(321)));
}

#[test]
fn texts_are_measured_in_bytes() {
    assert!(sized("\u{fc}", 2, 2));
    assert!(!sized("\u{fc}", 1, 1));
    assert!(ascii_graphic("key-1"));
    assert!(!ascii_graphic("key 1"));
    assert!(!ascii_graphic("\u{fc}"));
    assert!(any_white_space("a\u{a0}b"));
    assert!(!any_white_space("ab"));
}

#[test]
fn rows_are_read_by_name_and_type() {
    let row = Row {
        columns: vec![
            Column {
                name: "first".to_owned(),
                cell: Cell::I64(5),
            },
            Column {
                name: "second".to_owned(),
                cell: Cell::Null,
            },
        ],
    };
    assert_eq!(row.get::<i64>("first"), Some(5));
    assert_eq!(row.get::<Option<i64>>("first"), Some(Some(5)));
    assert_eq!(row.get::<Option<i64>>("second"), Some(None));
    assert_eq!(row.get::<i64>("second"), None);
    assert_eq!(row.get::<bool>("first"), None);
    assert_eq!(row.get::<i64>("third"), None);
}

#[test]
fn replies_are_read_as_their_statements_shape_them() {
    let none = Reply::Rows(Vec::new());
    let five = Reply::Rows(vec![cell("value", Cell::I64(5))]);
    assert_eq!(optional::<i64>(&none), Ok(None));
    assert_eq!(optional::<i64>(&five), Ok(Some(5)));
    assert_eq!(
        required::<i64>(&none, DatabaseError::NotFound),
        Err(Fault::Error(DatabaseError::NotFound))
    );
    assert_eq!(single::<i64>(&none), Err(Fault::Malformed));
    assert_eq!(single::<i64>(&five), Ok(5));
    assert_eq!(single::<bool>(&five), Err(Fault::Error(DatabaseError::Sql)));
    assert_eq!(many::<i64>(&five), Ok(vec![5]));
    assert_eq!(many::<i64>(&Reply::Ack), Err(Fault::Malformed));
    assert_eq!(affected(&Reply::Count(3)), Ok(3));
    assert_eq!(affected(&none), Err(Fault::Malformed));
    assert_eq!(exactly_one(&Reply::Count(1), DatabaseError::Conflict), Ok(()));
    assert_eq!(
        exactly_one(&Reply::Count(2), DatabaseError::Conflict),
        Err(Fault::Error(DatabaseError::Conflict))
    );
    let counts = [Reply::Count(1), Reply::Count(0), Reply::Ack];
    assert_eq!(each_exactly_one(&counts, 0, 1, DatabaseError::Conflict), Ok(()));
    assert_eq!(
        each_exactly_one(&counts, 0, 3, DatabaseError::Conflict),
        Err(Fault::Error(DatabaseError::Conflict))
    );
    let ids = Reply::Ids(vec![Uuid::nil()]);
    assert_eq!(drawn(&ids, 1), Ok(&vec![Uuid::nil()]));
    assert_eq!(drawn(&ids, 2), Err(Fault::Malformed));
}

#[test]
fn a_fence_agrees_with_all_four_generations() {
    let fence = FenceGenerations {
        membership: 1,
        drive_acl: 2,
        namespace: 3,
        resource_acl: 4,
    };
    assert!(fence.agree([1, 2, 3, 4]));
    assert!(!fence.agree([0, 2, 3, 4]));
    assert!(!fence.agree([1, 0, 3, 4]));
    assert!(!fence.agree([1, 2, 0, 4]));
    assert!(!fence.agree([1, 2, 3, 0]));
}

#[test]
fn members_are_found_by_their_keys() {
    let json = Json::Object(vec![Member {
        key: "outer".to_owned(),
        value: Json::Object(vec![Member {
            key: "inner".to_owned(),
            value: Json::Number(Number::NonNegative(5)),
        }]),
    }]);
    assert!(matches!(
        json.path("outer", "inner"),
        Some(Json::Number(Number::NonNegative(5)))
    ));
    assert!(json.path("outer", "other").is_none());
    assert!(Json::Null.path("outer", "inner").is_none());
}

#[test]
fn counts_do_not_wrap_around() {
    assert_eq!(sum(1, 2), Ok(3));
    assert_eq!(sum(u64::MAX, 0), Ok(u64::MAX));
    assert_eq!(sum(u64::MAX, 1), Err(Fault::Malformed));
}

#[test]
fn white_space_is_unicode_white_space() {
    for code in 0..=0x10_ffff_u32 {
        if let Some(character) = char::from_u32(code) {
            let mut text = String::new();
            text.push(character);
            assert_eq!(any_white_space(&text), character.is_whitespace());
        }
    }
}

#[test]
fn documents_are_measured_as_they_are_written() {
    let member = |key: &str, value: Json| Member {
        key: key.to_owned(),
        value,
    };
    let document = Json::Object(vec![
        member("z", Json::Null),
        member(
            "a",
            Json::Array(vec![
                Json::Bool(true),
                Json::Number(Number::NonNegative(12)),
                Json::Number(Number::Negative(-3)),
                Json::Number(Number::Decimal("1.5".to_owned())),
                Json::Text("\u{fc}\"\n".to_owned()),
                Json::Object(Vec::new()),
            ]),
        ),
    ]);
    let written = "{\"a\":[true,12,-3,1.5,\"\u{fc}\\\"\\n\",{}],\"z\":null}";
    assert_eq!(encoded_length(&document), Some(written.len()));
    let value: serde_json::Value = serde_json::from_str(written).expect("the text is JSON");
    assert_eq!(serde_json::to_vec(&value).expect("a value is written").len(), written.len());
    assert_eq!(encoded_length(&Json::Null), Some(4));
    for text in ["", "x", "[1]", "1.5.", "nan"] {
        let decimal = || Json::Number(Number::Decimal(text.to_owned()));
        assert_eq!(encoded_length(&decimal()), None);
        assert_eq!(encoded_length(&Json::Array(vec![Json::Null, decimal()])), None);
        assert_eq!(encoded_length(&Json::Object(vec![member("a", decimal())])), None);
    }
    let mut nested = Json::Null;
    for _ in 0..200 {
        nested = Json::Array(vec![nested]);
    }
    assert_eq!(encoded_length(&nested), Some(404));
}
