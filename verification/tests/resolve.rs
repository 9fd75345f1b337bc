//! Tests of the field resolver: language lookup and datetime parsing.

use xmltv2rss::xmltv::{
    find_name, find_value, first_url, parse_from_str, NameAndLang, Url, ValueAndLang,
    DEFAULT_XMLTV_DATETIME_FORMAT, DEFAULT_XMLTV_DATETIME_FORMAT_UTC,
};

fn candidates() -> Vec<ValueAndLang> {
    vec![
        ValueAndLang {
            value: "Bonjour".to_string(),
            lang: Some("fr".to_string()),
        },
        ValueAndLang {
            value: "Hello".to_string(),
            lang: Some("en".to_string()),
        },
    ]
}

#[test]
fn find_value_prefers_exact_language_match() {
    assert_eq!(find_value(&candidates(), Some("en")), "Hello");
}

#[test]
fn find_value_falls_back_to_first_candidate() {
    assert_eq!(find_value(&candidates(), Some("de")), "Bonjour");
    assert_eq!(find_value(&candidates(), None), "Bonjour");
}

#[test]
fn find_value_on_empty_list_is_empty() {
    assert_eq!(find_value(&vec![], Some("en")), "");
    assert_eq!(find_value(&vec![], None), "");
}

#[test]
fn find_name_resolves_like_find_value() {
    let names = vec![
        NameAndLang {
            name: "Une".to_string(),
            lang: Some("fr".to_string()),
        },
        NameAndLang {
            name: "One".to_string(),
            lang: None,
        },
    ];
    assert_eq!(find_name(&names, Some("fr")), "Une");
    assert_eq!(find_name(&names, Some("en")), "Une");
    assert_eq!(find_name(&names, None), "Une");
    assert_eq!(find_name(&vec![], None), "");
}

#[test]
fn first_url_takes_the_first() {
    assert_eq!(first_url(&vec![]), None);
    let urls = vec![
        Url {
            value: "https://example.com/1".to_string(),
        },
        Url {
            value: "https://example.com/2".to_string(),
        },
    ];
    assert_eq!(first_url(&urls), Some("https://example.com/1".to_string()));
}

#[test]
fn datetime_parses_with_primary_format() {
    let t = parse_from_str(
        "20240430120000 +0000",
        DEFAULT_XMLTV_DATETIME_FORMAT,
        DEFAULT_XMLTV_DATETIME_FORMAT_UTC,
    )
    .unwrap();
    let expected = chrono::DateTime::parse_from_rfc3339("2024-04-30T12:00:00Z")
        .unwrap()
        .timestamp();
    assert_eq!(t.seconds, expected);
}

#[test]
fn datetime_without_offset_falls_back_to_utc() {
    let with_tz = parse_from_str(
        "20240430120000 +0000",
        DEFAULT_XMLTV_DATETIME_FORMAT,
        DEFAULT_XMLTV_DATETIME_FORMAT_UTC,
    )
    .unwrap();
    let naive = parse_from_str(
        "20240430120000",
        DEFAULT_XMLTV_DATETIME_FORMAT,
        DEFAULT_XMLTV_DATETIME_FORMAT_UTC,
    )
    .unwrap();
    assert_eq!(with_tz, naive);
}

#[test]
fn offsets_shift_the_parsed_instant() {
    let utc = parse_from_str(
        "20240430120000 +0000",
        DEFAULT_XMLTV_DATETIME_FORMAT,
        DEFAULT_XMLTV_DATETIME_FORMAT_UTC,
    )
    .unwrap();
    let plus_two = parse_from_str(
        "20240430140000 +0200",
        DEFAULT_XMLTV_DATETIME_FORMAT,
        DEFAULT_XMLTV_DATETIME_FORMAT_UTC,
    )
    .unwrap();
    assert_eq!(utc, plus_two);
}

#[test]
fn unparsable_datetime_is_an_error() {
    assert!(parse_from_str(
        "2024-04-30",
        DEFAULT_XMLTV_DATETIME_FORMAT,
        DEFAULT_XMLTV_DATETIME_FORMAT_UTC,
    )
    .is_err());
}
