use qna::decimal::{parse_i64, render_u64};
use qna::error::Error;
use qna::pagination::extract_pagination;

fn params(pairs: &[(&str, &str)]) -> Vec<(String, String)> {
    let mut v: Vec<(String, String)> = Vec::new();
    for (k, val) in pairs {
        v.push((k.to_string(), val.to_string()));
    }
    v
}

#[test]
fn both_parameters_extracted() {
    let p = extract_pagination(&params(&[("limit", "1"), ("offset", "10")])).unwrap();
    assert_eq!(p.limit, Some(1));
    assert_eq!(p.offset, 10);
}

#[test]
fn missing_parameters_rejected() {
    let r = extract_pagination(&params(&[]));
    assert!(matches!(r, Err(Error::MissingParameters)));
    let r = extract_pagination(&params(&[("limit", "1")]));
    assert!(matches!(r, Err(Error::MissingParameters)));
    let r = extract_pagination(&params(&[("offset", "10")]));
    assert!(matches!(r, Err(Error::MissingParameters)));
}

#[test]
fn unparseable_parameter_rejected() {
    let r = extract_pagination(&params(&[("limit", "NaN"), ("offset", "10")]));
    assert!(matches!(r, Err(Error::ParseError)));
    let r = extract_pagination(&params(&[("limit", "1"), ("offset", "ten")]));
    assert!(matches!(r, Err(Error::ParseError)));
}

#[test]
fn first_occurrence_wins() {
    let p = extract_pagination(&params(&[("limit", "5"), ("limit", "9"), ("offset", "0")]))
        .unwrap();
    assert_eq!(p.limit, Some(5));
}

#[test]
fn parse_accepts_what_the_standard_parser_accepts() {
    let cases: Vec<&str> = vec![
        "0",
        "42",
        "007",
        "+7",
        "-1",
        "9223372036854775807",
        "-9223372036854775808",
        "9223372036854775808",
        "-9223372036854775809",
        "",
        "+",
        "-",
        "1a",
        " 42",
        "4 2",
        "٤２",
    ];
    for s in cases {
        assert_eq!(parse_i64(s), s.parse::<i64>().ok(), "input {:?}", s);
    }
}

#[test]
fn render_writes_decimal() {
    assert_eq!(render_u64(0), "0");
    assert_eq!(render_u64(7), "7");
    assert_eq!(render_u64(1000), "1000");
    assert_eq!(render_u64(u64::MAX), "18446744073709551615");
}
