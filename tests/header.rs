use headcrab_dap::header::{Header, HeaderField};
use headcrab_dap::Error;

#[test]
fn parse_header_field_valid_content_length() {
    let header = HeaderField::read_from(&mut "Content-Length:6\r\n")
        .unwrap()
        .unwrap();
    match header {
        HeaderField::Len(6) => (),
        _ => panic!(),
    }
}

#[test]
fn parse_header_field_valid_unknown_field() {
    let field = HeaderField::read_from(&mut "name:value\r\n")
        .unwrap()
        .unwrap();
    match field {
        HeaderField::Other { name, value } => {
            assert_eq!(name, "name");
            assert_eq!(value, "value");
        }
        _ => {
            panic!()
        }
    }
}

#[test]
fn parse_header_field_empty_line() {
    let none = HeaderField::read_from(&mut "\r\n").unwrap();
    assert_eq!(none, None);
}

#[test]
fn parse_header_field_name_only() {
    let err = HeaderField::read_from(&mut "name:");
    match err {
        Err(Error::BadMessage) => (),
        _ => panic!(),
    }
}

#[test]
#[should_panic]
fn parse_header_empty_input() {
    Header::read_from(&mut "").unwrap();
}

#[test]
fn parse_header_valid_header() {
    let header = Header::read_from(&mut "Content-Length:415\r\n\r\n").unwrap();

    assert_eq!(header.len, 415);

    assert_eq!(header.fields[0], HeaderField::Len(415));
    assert_eq!(header.fields.get(1), None)
}

#[test]
fn parse_header_valid_header_with_unknown_field() {
    let header =
        Header::read_from(&mut "Content-Length:360\r\nOther-Field:value\r\n\r\n").unwrap();

    assert_eq!(header.fields.len(), 2);
    assert_eq!(header.len, 360);
    assert_eq!(header.fields.get(0), Some(&HeaderField::Len(360)));
    assert_eq!(
        header.fields.get(1),
        Some(&HeaderField::Other {
            name: "Other-Field".to_string(),
            value: "value".to_string()
        })
    );
    assert_eq!(header.fields.get(2), None);
}

#[test]
fn from_raw_fields_valid() {
    let header = Header::from_raw_fields(vec![HeaderField::Len(1)]).unwrap();

    assert_eq!(header.len, 1);
    assert_eq!(header.fields.get(0), Some(&HeaderField::Len(1)));
    assert_eq!(header.fields.get(1), None);
}

#[test]
fn from_raw_fields_valid_with_unknown_field() {
    let header = Header::from_raw_fields(vec![
        HeaderField::Other {
            name: "name".to_string(),
            value: "value".to_string(),
        },
        HeaderField::Len(1),
    ])
    .unwrap();

    assert_eq!(header.len, 1);
    assert_eq!(
        header.fields.get(0),
        Some(&HeaderField::Other {
            name: "name".to_string(),
            value: "value".to_string()
        })
    );
    assert_eq!(header.fields.get(1), Some(&HeaderField::Len(1)));
    assert_eq!(header.fields.get(2), None);
}

fn other(name: &str, value: &str) -> HeaderField {
    HeaderField::Other {
        name: name.to_string(),
        value: value.to_string(),
    }
}

fn is_bad_message<T>(r: Result<T, Error>) -> bool {
    matches!(r, Err(Error::BadMessage))
}

#[test]
fn header_content_length_six() {
    let mut input = "Content-Length:6\r\n\r\n";
    let header = Header::read_from(&mut input).unwrap();
    assert_eq!(header.len, 6);
    assert_eq!(header.fields, vec![HeaderField::Len(6)]);
    assert_eq!(input, "");
}

#[test]
fn header_round_trip_keeps_fields_in_order() {
    let fields = vec![
        other("X-First", "one"),
        HeaderField::Len(1234567),
        other("X-Second", "two words"),
    ];
    let header = Header::from_raw_fields(fields.clone()).unwrap();
    let text = header.into_string();
    assert_eq!(
        text,
        "X-First:one\r\nContent-Length:1234567\r\nX-Second:two words\r\n\r\n"
    );
    let with_body = format!("{}{{}}", text);
    let mut input = with_body.as_str();
    let back = Header::read_from(&mut input).unwrap();
    assert_eq!(back.len, 1234567);
    assert_eq!(back.fields, fields);
    assert_eq!(input, "{}");
}

#[test]
fn header_new_writes_content_length() {
    assert_eq!(Header::new(0).into_string(), "Content-Length:0\r\n\r\n");
    assert_eq!(Header::new(42).into_string(), "Content-Length:42\r\n\r\n");
}

#[test]
fn header_without_content_length_is_malformed() {
    assert!(is_bad_message(Header::read_from(&mut "name:value\r\n\r\n")));
    assert!(is_bad_message(Header::read_from(&mut "")));
    assert!(is_bad_message(Header::read_from(&mut "\r\n")));
}

#[test]
fn header_with_two_content_lengths_is_malformed() {
    assert!(is_bad_message(Header::read_from(
        &mut "Content-Length:1\r\nContent-Length:1\r\n\r\n"
    )));
}

#[test]
fn header_line_name_only_is_malformed() {
    assert!(is_bad_message(HeaderField::parse_line("name:\r\n")));
    assert!(is_bad_message(HeaderField::parse_line(":value\r\n")));
    assert!(is_bad_message(HeaderField::parse_line("no separator\r\n")));
    assert!(is_bad_message(HeaderField::parse_line("a:b:c\r\n")));
    assert!(is_bad_message(HeaderField::parse_line("   \r\n")));
}

#[test]
fn header_content_length_must_be_a_number() {
    assert!(is_bad_message(HeaderField::parse_line("Content-Length:abc\r\n")));
    assert!(is_bad_message(HeaderField::parse_line("Content-Length:-1\r\n")));
    assert!(is_bad_message(HeaderField::parse_line(
        "Content-Length:99999999999999999999999\r\n"
    )));
    assert_eq!(
        HeaderField::parse_line("Content-Length:0\r\n").unwrap(),
        Some(HeaderField::Len(0))
    );
}

#[test]
fn header_line_parts_are_trimmed() {
    assert_eq!(
        HeaderField::parse_line("  name \t:  some value \r\n").unwrap(),
        Some(other("name", "some value"))
    );
    assert_eq!(
        HeaderField::parse_line("Content-Length: 12 \r\n").unwrap(),
        Some(HeaderField::Len(12))
    );
}

#[test]
fn header_field_read_from_takes_one_line() {
    let mut input = "a:b\r\nc:d\r\n";
    let first = HeaderField::read_from(&mut input).unwrap();
    assert_eq!(first, Some(other("a", "b")));
    assert_eq!(input, "c:d\r\n");
}

#[test]
fn specialize_reads_content_length() {
    assert_eq!(
        other("Content-Length", "17").specialize().unwrap(),
        HeaderField::Len(17)
    );
    assert_eq!(other("Other", "17").specialize().unwrap(), other("Other", "17"));
    assert!(is_bad_message(other("Content-Length", "x").specialize()));
}

#[test]
fn write_to_appends_field_line() {
    let mut out = String::from("start:");
    other("k", "v").write_to(&mut out);
    HeaderField::Len(9).write_to(&mut out);
    assert_eq!(out, "start:k:v\r\nContent-Length:9\r\n");
}

#[test]
fn header_reader_takes_lines_one_at_a_time() {
    let mut reader = headcrab_dap::header::HeaderReader::new();
    assert!(reader.push_line("X-A:1\r\n").unwrap().is_none());
    assert!(reader.push_line("Content-Length:5\r\n").unwrap().is_none());
    let header = reader.push_line("\r\n").unwrap().unwrap();
    assert_eq!(header.len, 5);
    assert_eq!(header.fields, vec![other("X-A", "1"), HeaderField::Len(5)]);
    let mut bad = headcrab_dap::header::HeaderReader::new();
    assert!(is_bad_message(bad.push_line("X-A:1\r\n").and_then(|_| bad.push_line("\r\n"))));
}

#[test]
fn content_length_may_carry_a_plus_sign() {
    assert_eq!(
        HeaderField::parse_line("Content-Length:+6\r\n").unwrap(),
        Some(HeaderField::Len(6))
    );
    assert!(is_bad_message(HeaderField::parse_line("Content-Length:+\r\n")));
    assert!(is_bad_message(HeaderField::parse_line("Content-Length:++6\r\n")));
    assert!(is_bad_message(HeaderField::parse_line("Content-Length:6+\r\n")));
}
