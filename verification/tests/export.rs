//! End-to-end and component tests of the export engine.

use xmltv2rss::datetime::Timestamp;
use xmltv2rss::error::Error;
use xmltv2rss::export::atom::export_to_atom;
use xmltv2rss::export::rss::export_to_rss;
use xmltv2rss::export::{airtime_length, export, uuid, Options, OptionsBuilder};
use xmltv2rss::export::rss::Rss;
use xmltv2rss::xmltv::{Channel, NameAndLang, Programme, Tv, Url, ValueAndLang};

fn vl(value: &str, lang: Option<&str>) -> ValueAndLang {
    ValueAndLang {
        value: value.to_string(),
        lang: lang.map(|s| s.to_string()),
    }
}

fn nl(name: &str, lang: Option<&str>) -> NameAndLang {
    NameAndLang {
        name: name.to_string(),
        lang: lang.map(|s| s.to_string()),
    }
}

fn programme(channel: &str, start: &str, stop: Option<&str>, title: &str) -> Programme {
    Programme {
        channel: channel.to_string(),
        start: start.to_string(),
        stop: stop.map(|s| s.to_string()),
        titles: vec![vl(title, None)],
        categories: vec![],
        descriptions: vec![],
        urls: vec![],
    }
}

fn simple_listing() -> Tv {
    Tv {
        channels: vec![Channel {
            id: "ch1".to_string(),
            display_names: vec![nl("Channel One", None)],
        }],
        programmes: vec![programme("ch1", "20240430120000 +0000", None, "Show")],
    }
}

#[test]
fn uuid_is_deterministic_and_uuid_shaped() {
    let a = uuid("ch1-20240430120000");
    let b = uuid("ch1-20240430120000");
    assert_eq!(a, b);
    let c = uuid("ch2-20240430120000");
    assert_ne!(a, c);
    assert_eq!(a.len(), 36);
    for (i, ch) in a.chars().enumerate() {
        if i == 8 || i == 13 || i == 18 || i == 23 {
            assert_eq!(ch, '-');
        } else {
            assert!(ch.is_ascii_hexdigit());
        }
    }
}

#[test]
fn identifier_shared_across_formats() {
    let listing = simple_listing();
    let options = Options::default();
    let channel = export_to_rss("T", "", None, None, None, &options, &listing).unwrap();
    let feed = export_to_atom("T", "", None, None, &options, &listing).unwrap();
    let guid = &channel.items[0].guid;
    let id = &feed.entries[0].id;
    assert_eq!(*id, format!("urn:uuid:{guid}"));
}

#[test]
fn export_twice_yields_identical_feeds() {
    let listing = simple_listing();
    let options = Options::default();
    let c1 = export_to_rss(
        "T",
        "https://example.com/",
        Some("desc"),
        Some("Mon, 29 Apr 2024 12:00:00 +0000".to_string()),
        Some("Tue, 30 Apr 2024 12:00:00 +0000".to_string()),
        &options,
        &listing,
    )
    .unwrap();
    let c2 = export_to_rss(
        "T",
        "https://example.com/",
        Some("desc"),
        Some("Mon, 29 Apr 2024 12:00:00 +0000".to_string()),
        Some("Tue, 30 Apr 2024 12:00:00 +0000".to_string()),
        &options,
        &listing,
    )
    .unwrap();
    assert_eq!(c1, c2);
    let f1 = export_to_atom(
        "T",
        "",
        None,
        Some(Timestamp { seconds: 1714478400 }),
        &options,
        &listing,
    )
    .unwrap();
    let f2 = export_to_atom(
        "T",
        "",
        None,
        Some(Timestamp { seconds: 1714478400 }),
        &options,
        &listing,
    )
    .unwrap();
    assert_eq!(f1, f2);
}

#[test]
fn entry_order_follows_programme_order() {
    let mut listing = simple_listing();
    listing
        .programmes
        .push(programme("ch1", "20240430150000 +0000", None, "Later"));
    listing
        .programmes
        .push(programme("ch1", "20240430090000 +0000", None, "Earlier"));
    let options = Options::default();
    let channel = export_to_rss("T", "", None, None, None, &options, &listing).unwrap();
    let titles: Vec<&str> = channel.items.iter().map(|i| i.title.as_str()).collect();
    assert_eq!(titles, vec!["Show", "Later", "Earlier"]);
    let feed = export_to_atom("T", "", None, None, &options, &listing).unwrap();
    let titles: Vec<&str> = feed.entries.iter().map(|e| e.title.as_str()).collect();
    assert_eq!(titles, vec!["Show", "Later", "Earlier"]);
}

#[test]
fn end_to_end_rss_simple_listing() {
    let listing = simple_listing();
    let options = Options::default();
    let channel = export_to_rss("T", "", None, None, None, &options, &listing).unwrap();
    assert_eq!(channel.items.len(), 1);
    let item = &channel.items[0];
    assert_eq!(item.title, "Show");
    assert!(item.description.contains("<td>ch1-Channel One</td>"));
    assert!(item.description.contains("Length:</td><td>00:00:00</td>"));
    assert_eq!(item.pub_date, "Tue, 30 Apr 2024 12:00:00 +0000");
    assert!(item.link.is_none());
}

#[test]
fn description_rows_use_configured_formats() {
    let listing = simple_listing();
    let options = Options::default();
    let channel = export_to_rss("T", "", None, None, None, &options, &listing).unwrap();
    let desc = &channel.items[0].description;
    assert!(desc.contains("Airdate:</td><td>2024-04-30</td>"));
    assert!(desc.contains("Airtime:</td><td>12:00 - 12:00</td>"));
    assert!(desc.starts_with("<table><tr><td align=\"right\" valign=\"top\">Title:</td><td>Show</td></tr>"));
    assert!(desc.ends_with("Description:</td><td></td></tr></table>"));
}

#[test]
fn missing_channel_yields_bare_channel_id() {
    let mut listing = simple_listing();
    listing.programmes[0].channel = "nowhere".to_string();
    let options = Options::default();
    let channel = export_to_rss("T", "", None, None, None, &options, &listing).unwrap();
    assert_eq!(channel.items.len(), 1);
    let desc = &channel.items[0].description;
    assert!(desc.contains("Channel:</td><td>nowhere</td>"));
}

#[test]
fn stop_time_gives_duration_and_airtime_range() {
    let mut listing = simple_listing();
    listing.programmes[0].stop = Some("20240430133000 +0000".to_string());
    let options = Options::default();
    let channel = export_to_rss("T", "", None, None, None, &options, &listing).unwrap();
    let desc = &channel.items[0].description;
    assert!(desc.contains("Length:</td><td>01:30:00</td>"));
    assert!(desc.contains("Airtime:</td><td>12:00 - 13:30</td>"));
}

#[test]
fn airtime_length_scenarios() {
    let noon = Timestamp {
        seconds: 1714478400,
    };
    assert_eq!(airtime_length(noon, noon), "00:00:00");
    let later = Timestamp {
        seconds: 1714478400 + 90 * 60,
    };
    assert_eq!(airtime_length(noon, later), "01:30:00");
    let much_later = Timestamp {
        seconds: 1714478400 + 26 * 3600,
    };
    assert_eq!(airtime_length(noon, much_later), "26:00:00");
}

#[test]
fn naive_start_time_falls_back_to_utc() {
    let mut listing = simple_listing();
    listing.programmes[0].start = "20240430120000".to_string();
    let options = Options::default();
    let channel = export_to_rss("T", "", None, None, None, &options, &listing).unwrap();
    assert_eq!(
        channel.items[0].pub_date,
        "Tue, 30 Apr 2024 12:00:00 +0000"
    );
}

#[test]
fn unparsable_time_aborts_with_parse_error() {
    let mut listing = simple_listing();
    listing.programmes[0].start = "not a time".to_string();
    let options = Options::default();
    let r = export_to_rss("T", "", None, None, None, &options, &listing);
    match r {
        Err(Error::Parse(m)) => assert_eq!(m, "not a time"),
        _ => panic!("expected a parse error"),
    }
    let e = export_to_atom("T", "", None, None, &options, &listing).unwrap_err();
    assert_eq!(e.message(), "cannot parse datetime: not a time");
}

#[test]
fn unparsable_stop_time_aborts_too() {
    let mut listing = simple_listing();
    listing.programmes[0].stop = Some("broken".to_string());
    let options = Options::default();
    match export_to_rss("T", "", None, None, None, &options, &listing) {
        Err(Error::Parse(m)) => assert_eq!(m, "broken"),
        _ => panic!("expected a parse error"),
    }
}

#[test]
fn language_resolution_picks_matching_then_first() {
    let mut listing = simple_listing();
    listing.programmes[0].titles = vec![vl("Bonjour", Some("fr")), vl("Hello", Some("en"))];

    let options = OptionsBuilder::default().language("en").build().unwrap();
    let channel = export_to_rss("T", "", None, None, None, &options, &listing).unwrap();
    assert_eq!(channel.items[0].title, "Hello");
    assert_eq!(channel.language, Some("en".to_string()));

    let options = OptionsBuilder::default().language("de").build().unwrap();
    let channel = export_to_rss("T", "", None, None, None, &options, &listing).unwrap();
    assert_eq!(channel.items[0].title, "Bonjour");

    let options = Options::default();
    let channel = export_to_rss("T", "", None, None, None, &options, &listing).unwrap();
    assert_eq!(channel.items[0].title, "Bonjour");

    listing.programmes[0].titles = vec![];
    let channel = export_to_rss("T", "", None, None, None, &options, &listing).unwrap();
    assert_eq!(channel.items[0].title, "");
}

#[test]
fn empty_language_means_no_preference() {
    let mut listing = simple_listing();
    listing.programmes[0].titles = vec![vl("Bonjour", Some("fr")), vl("Hello", Some("en"))];
    let options = OptionsBuilder::default().language("").build().unwrap();
    let channel = export_to_rss("T", "", None, None, None, &options, &listing).unwrap();
    assert_eq!(channel.items[0].title, "Bonjour");
    assert_eq!(channel.language, Some(String::new()));
}

#[test]
fn multi_line_description_is_trimmed_and_joined() {
    let mut listing = simple_listing();
    listing.programmes[0].descriptions = vec![vl("  first line \n  second line  ", None)];
    let options = Options::default();
    let channel = export_to_rss("T", "", None, None, None, &options, &listing).unwrap();
    let desc = &channel.items[0].description;
    assert!(desc.contains("Description:</td><td>first line<br/>second line</td></tr>"));
}

#[test]
fn category_and_url_resolution() {
    let mut listing = simple_listing();
    listing.programmes[0].categories = vec![nl("News", None), nl("Other", None)];
    listing.programmes[0].urls = vec![
        Url {
            value: "https://example.com/a".to_string(),
        },
        Url {
            value: "https://example.com/b".to_string(),
        },
    ];
    let options = Options::default();
    let channel = export_to_rss("T", "", None, None, None, &options, &listing).unwrap();
    let item = &channel.items[0];
    assert!(item.description.contains("Category:</td><td>News</td>"));
    assert_eq!(item.link, Some("https://example.com/a".to_string()));
    let feed = export_to_atom("T", "", None, None, &options, &listing).unwrap();
    assert_eq!(feed.entries[0].link, "https://example.com/a");
}

#[test]
fn feed_header_fields_and_defaults() {
    let listing = simple_listing();
    let options = Options::default();
    let channel = export_to_rss(
        "",
        "https://example.com/feed",
        None,
        Some("Mon, 29 Apr 2024 12:00:00 +0000".to_string()),
        Some("Tue, 30 Apr 2024 12:00:00 +0000".to_string()),
        &options,
        &listing,
    )
    .unwrap();
    assert_eq!(channel.title, "TV listing");
    assert_eq!(channel.link, "https://example.com/feed");
    assert_eq!(channel.description, "TV listing feed");
    assert_eq!(channel.language, None);
    assert_eq!(
        channel.pub_date,
        Some("Mon, 29 Apr 2024 12:00:00 +0000".to_string())
    );
    assert_eq!(
        channel.last_build_date,
        Some("Tue, 30 Apr 2024 12:00:00 +0000".to_string())
    );

    let feed = export_to_atom(
        "",
        "https://example.com/feed",
        Some("sub"),
        Some(Timestamp {
            seconds: 1714478400,
        }),
        &options,
        &listing,
    )
    .unwrap();
    assert_eq!(feed.title, "TV listing");
    assert_eq!(feed.generator, "TV listing feed");
    assert_eq!(feed.subtitle, Some("sub".to_string()));
    assert_eq!(feed.updated, Some(Timestamp { seconds: 1714478400 }));
    assert_eq!(feed.entries[0].published, feed.entries[0].updated);
}

#[test]
fn options_builder_applies_defaults_and_overrides() {
    let options = OptionsBuilder::default().build().unwrap();
    assert_eq!(options.language, None);
    assert_eq!(options.date_format, "%Y-%m-%d");
    assert_eq!(options.time_format, "%H:%M");
    assert_eq!(options.xmltv_datetime_format, "%Y%m%d%H%M%S %z");

    let options = OptionsBuilder::default()
        .language("fr-FR")
        .date_format("%d/%m/%Y")
        .time_format("%I:%M %p")
        .xmltv_datetime_format("%Y-%m-%d %H:%M:%S %z")
        .build()
        .unwrap();
    assert_eq!(options.language, Some("fr-FR".to_string()));
    assert_eq!(options.date_format, "%d/%m/%Y");
    assert_eq!(options.time_format, "%I:%M %p");
    assert_eq!(options.xmltv_datetime_format, "%Y-%m-%d %H:%M:%S %z");
}

#[test]
fn generic_driver_matches_concrete_export() {
    let listing = simple_listing();
    let options = Options::default();
    let direct = export_to_rss("T", "", None, None, None, &options, &listing).unwrap();
    let visitor = Rss::new("T", "", None, None, None, &options, &listing.channels);
    let via_driver = export(visitor, &listing).unwrap();
    assert_eq!(direct, via_driver);
}

#[test]
fn negative_duration_renders_signed_fields() {
    let noon = Timestamp {
        seconds: 1714478400,
    };
    let earlier = Timestamp {
        seconds: 1714478400 - 90 * 60,
    };
    assert_eq!(airtime_length(noon, earlier), "-1:-30:00");
}

#[test]
fn crlf_and_lone_cr_in_descriptions() {
    let mut listing = simple_listing();
    listing.programmes[0].descriptions = vec![vl("one\r\ntwo\nthree\rstill three", None)];
    let options = Options::default();
    let channel = export_to_rss("T", "", None, None, None, &options, &listing).unwrap();
    let desc = &channel.items[0].description;
    assert!(desc.contains("Description:</td><td>one<br/>two<br/>three\rstill three</td></tr>"));
}

#[test]
fn empty_and_blank_descriptions_collapse() {
    let mut listing = simple_listing();
    listing.programmes[0].descriptions = vec![vl("   \n  ", None)];
    let options = Options::default();
    let channel = export_to_rss("T", "", None, None, None, &options, &listing).unwrap();
    assert!(channel.items[0]
        .description
        .contains("Description:</td><td></td></tr>"));
}
