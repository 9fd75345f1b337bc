//! Common export machinery: the export options, the shared per-programme
//! derivation rules (channel label, duration, description table, identifier),
//! the visitor contract and the traversal driver.

pub mod atom;
pub mod rss;

use vstd::prelude::*;
use vstd::pervasive::unreached;

use crate::datetime::{fmt_utc_of, format_utc, Timestamp};
use crate::error::Error;
use crate::text::{
    desc_body_model, hex_group, hex_group_model, pad2, pad2_model, render_description,
};
use crate::xmltv::{
    find_name, find_name_model, find_value, find_value_model, lang_view, parse_model, Channel,
    Programme, Tv,
};

verus! {

/// The feed title used when the caller supplies an empty one.
pub const DEFAULT_FEED_CHANNEL_TITLE: &'static str = "TV listing";

/// The feed description (RSS) and generator label (Atom) used when the caller
/// supplies none.
pub const DEFAULT_FEED_CHANNEL_DESCRIPTION: &'static str = "TV listing feed";

/// The default display format of an entry's air date.
pub const DEFAULT_FEED_DATE_FORMAT: &'static str = "%Y-%m-%d";

/// The default display format of an entry's air times.
pub const DEFAULT_FEED_TIME_FORMAT: &'static str = "%H:%M";

/// The canonical start-time pattern that feeds the identifier generator:
/// year, month, day, hour, minute, second, no timezone.
pub const GUID_DATETIME_FORMAT: &'static str = "%Y%m%d%H%M%S";

/// The view of an optional owned string.
pub open spec fn opt_string_view(s: Option<String>) -> Option<Seq<char>> {
    match s {
        Some(x) => Some(x@),
        None => None,
    }
}

/// Export options, resolved once before a traversal and read-only during it.
#[derive(Debug, Clone, PartialEq, Eq)]
pub struct Options {
    /// Preferred language tag; absent means "no preference".
    pub language: Option<String>,
    /// Display format of an entry's air date.
    pub date_format: String,
    /// Display format of an entry's air times.
    pub time_format: String,
    /// Primary input datetime format; the fallback is the fixed UTC format.
    pub xmltv_datetime_format: String,
}

impl Default for Options {
    /// Options with no language preference and the default formats.
    fn default() -> (r: Self)
        ensures
            r.language is None,
            r.date_format@ == DEFAULT_FEED_DATE_FORMAT@,
            r.time_format@ == DEFAULT_FEED_TIME_FORMAT@,
            r.xmltv_datetime_format@ == crate::xmltv::DEFAULT_XMLTV_DATETIME_FORMAT@,
    {
        Options {
            language: None,
            date_format: DEFAULT_FEED_DATE_FORMAT.to_owned(),
            time_format: DEFAULT_FEED_TIME_FORMAT.to_owned(),
            xmltv_datetime_format: crate::xmltv::DEFAULT_XMLTV_DATETIME_FORMAT.to_owned(),
        }
    }
}

/// The error the options builder can report.  The current validation accepts
/// every combination of fields, so building never fails; the type keeps the
/// fallible shape of the builder surface.
#[derive(Debug, Clone, PartialEq, Eq)]
pub struct OptionsBuilderError;

/// A builder for `Options`: unset fields fall back to the defaults.
#[derive(Debug, Clone, PartialEq, Eq)]
pub struct OptionsBuilder {
    pub language: Option<String>,
    pub date_format: Option<String>,
    pub time_format: Option<String>,
    pub xmltv_datetime_format: Option<String>,
}

impl Default for OptionsBuilder {
    /// A builder with every field unset.
    fn default() -> (r: Self)
        ensures
            r.language is None,
            r.date_format is None,
            r.time_format is None,
            r.xmltv_datetime_format is None,
    {
        OptionsBuilder { language: None, date_format: None, time_format: None,
            xmltv_datetime_format: None }
    }
}

impl OptionsBuilder {
    /// Sets the preferred language tag.
    pub fn language(self, language: &str) -> (r: Self)
        ensures
            opt_string_view(r.language) == Some(language@),
            r.date_format == self.date_format,
            r.time_format == self.time_format,
            r.xmltv_datetime_format == self.xmltv_datetime_format,
    {
        Self { language: Some(language.to_owned()), ..self }
    }

    /// Sets the display format of an entry's air date.
    pub fn date_format(self, date_format: &str) -> (r: Self)
        ensures
            opt_string_view(r.date_format) == Some(date_format@),
            r.language == self.language,
            r.time_format == self.time_format,
            r.xmltv_datetime_format == self.xmltv_datetime_format,
    {
        Self { date_format: Some(date_format.to_owned()), ..self }
    }

    /// Sets the display format of an entry's air times.
    pub fn time_format(self, time_format: &str) -> (r: Self)
        ensures
            opt_string_view(r.time_format) == Some(time_format@),
            r.language == self.language,
            r.date_format == self.date_format,
            r.xmltv_datetime_format == self.xmltv_datetime_format,
    {
        Self { time_format: Some(time_format.to_owned()), ..self }
    }

    /// Sets the primary input datetime format.
    pub fn xmltv_datetime_format(self, xmltv_datetime_format: &str) -> (r: Self)
        ensures
            opt_string_view(r.xmltv_datetime_format) == Some(xmltv_datetime_format@),
            r.language == self.language,
            r.date_format == self.date_format,
            r.time_format == self.time_format,
    {
        Self { xmltv_datetime_format: Some(xmltv_datetime_format.to_owned()), ..self }
    }

    /// Resolves the options.  Validation accepts every combination of fields,
    /// so the result is always `Ok`: unset fields take the defaults.
    pub fn build(&self) -> (r: Result<Options, OptionsBuilderError>)
        ensures
            r is Ok,
            r matches Ok(o) ==> {
                &&& opt_string_view(o.language) == opt_string_view(self.language)
                &&& o.date_format@ == match self.date_format {
                    Some(f) => f@,
                    None => DEFAULT_FEED_DATE_FORMAT@,
                }
                &&& o.time_format@ == match self.time_format {
                    Some(f) => f@,
                    None => DEFAULT_FEED_TIME_FORMAT@,
                }
                &&& o.xmltv_datetime_format@ == match self.xmltv_datetime_format {
                    Some(f) => f@,
                    None => crate::xmltv::DEFAULT_XMLTV_DATETIME_FORMAT@,
                }
            },
    {
        let language = match &self.language {
            Some(l) => Some(l.clone()),
            None => None,
        };
        let date_format = match &self.date_format {
            Some(f) => f.clone(),
            None => DEFAULT_FEED_DATE_FORMAT.to_owned(),
        };
        let time_format = match &self.time_format {
            Some(f) => f.clone(),
            None => DEFAULT_FEED_TIME_FORMAT.to_owned(),
        };
        let xmltv_datetime_format = match &self.xmltv_datetime_format {
            Some(f) => f.clone(),
            None => crate::xmltv::DEFAULT_XMLTV_DATETIME_FORMAT.to_owned(),
        };
        Ok(Options { language, date_format, time_format, xmltv_datetime_format })
    }
}

/// The language the traversal resolves fields with: the configured tag,
/// with an empty tag normalized to "no preference".
pub open spec fn resolved_lang(o: Options) -> Option<Seq<char>> {
    match o.language {
        Some(l) => if l@.len() == 0 {
            None
        } else {
            Some(l@)
        },
        None => None,
    }
}

/// The configured language with an empty tag normalized to "no preference".
pub fn effective_language(options: &Options) -> (r: Option<&str>)
    ensures
        lang_view(r) == resolved_lang(*options),
{
    match &options.language {
        Some(l) => {
            if l.as_str().is_empty() {
                None
            } else {
                Some(l.as_str())
            }
        },
        None => None,
    }
}

/// The channel of the listing with the wanted identifier, if any.
pub open spec fn find_channel_match(channels: Seq<Channel>, id: Seq<char>) -> Option<Channel>
    decreases channels.len(),
{
    if channels.len() == 0 {
        None
    } else if channels[0].id@ == id {
        Some(channels[0])
    } else {
        find_channel_match(channels.drop_first(), id)
    }
}

proof fn lemma_find_channel_match_skip(channels: Seq<Channel>, id: Seq<char>, i: int)
    requires
        0 <= i <= channels.len(),
        forall|k: int| 0 <= k < i ==> channels[k].id@ != id,
    ensures
        find_channel_match(channels, id) == find_channel_match(channels.skip(i), id),
    decreases i,
{
    if i == 0 {
        assert(channels.skip(0) =~= channels);
    } else {
        lemma_find_channel_match_skip(channels.drop_first(), id, i - 1);
        assert(channels.drop_first().skip(i - 1) =~= channels.skip(i));
    }
}

/// The channel with the wanted identifier, if the listing has one.
pub fn find_channel<'a>(channels: &'a Vec<Channel>, id: &str) -> (r: Option<&'a Channel>)
    ensures
        r is Some <==> find_channel_match(channels@, id@) is Some,
        r matches Some(c) ==> find_channel_match(channels@, id@) == Some(*c),
{
    let id_owned = id.to_owned();
    let n = channels.len();
    let mut i: usize = 0;
    while i < n
        invariant
            n == channels@.len(),
            id_owned@ == id@,
            0 <= i <= n,
            forall|k: int| 0 <= k < i ==> channels@[k].id@ != id@,
        decreases n - i,
    {
        if channels[i].id == id_owned {
            proof {
                lemma_find_channel_match_skip(channels@, id@, i as int);
                assert(channels@.skip(i as int)[0] == channels@[i as int]);
            }
            return Some(&channels[i]);
        }
        i += 1;
    }
    proof {
        lemma_find_channel_match_skip(channels@, id@, n as int);
        assert(channels@.skip(n as int) =~= Seq::<Channel>::empty());
    }
    None
}

/// The display label of a programme's channel: the channel id concatenated
/// with the resolved display name when the listing has the channel, else the
/// bare channel id.
pub open spec fn channel_label_model(
    channels: Seq<Channel>,
    id: Seq<char>,
    language: Option<Seq<char>>,
) -> Seq<char> {
    match find_channel_match(channels, id) {
        Some(c) => id + "-"@ + find_name_model(c.display_names@, language),
        None => id,
    }
}

/// Resolves the display label of a programme's channel.
pub fn channel_label(channels: &Vec<Channel>, channel_id: &str, language: Option<&str>) -> (r:
    String)
    ensures
        r@ == channel_label_model(channels@, channel_id@, lang_view(language)),
{
    match find_channel(channels, channel_id) {
        Some(c) => {
            let display_name = find_name(&c.display_names, language);
            let mut r = channel_id.to_owned();
            r.append("-");
            r.append(display_name);
            r
        },
        None => channel_id.to_owned(),
    }
}

/// The difference `a - b` clamped to the machine range of signed 64-bit
/// seconds.
pub open spec fn sat_sub_i64(a: int, b: int) -> int {
    if a - b > i64::MAX {
        i64::MAX as int
    } else if a - b < i64::MIN {
        i64::MIN as int
    } else {
        a - b
    }
}

/// The rendered length of a programme: stop minus start in whole minutes,
/// shown as zero-padded hours, minutes and a fixed seconds field of 00.
pub open spec fn airtime_length_model(start: int, stop: int) -> Seq<char> {
    let d = sat_sub_i64(stop, start);
    let mag = if d < 0 {
        -d
    } else {
        d
    };
    let h = mag / 60 / 60;
    let m = (mag / 60) % 60;
    let hs = if d < 0 {
        -h
    } else {
        h
    };
    let ms = if d < 0 {
        -m
    } else {
        m
    };
    pad2_model(hs) + ":"@ + pad2_model(ms) + ":00"@
}

/// Renders the length of a programme, `stop - start`, as zero-padded hours,
/// minutes and a fixed seconds field of 00.  An absent stop time is passed
/// as the start time, which yields a zero length.
pub fn airtime_length(start: Timestamp, stop: Timestamp) -> (r: String)
    ensures
        r@ == airtime_length_model(start.seconds as int, stop.seconds as int),
{
    let d: i64 = match stop.seconds.checked_sub(start.seconds) {
        Some(d) => d,
        None => if stop.seconds >= 0 {
            i64::MAX
        } else {
            i64::MIN
        },
    };
    let neg = d < 0;
    let mag: u64 = if neg {
        (-(d as i128)) as u64
    } else {
        d as u64
    };
    let h: u64 = mag / 60 / 60;
    let m: u64 = (mag / 60) % 60;
    let hs: i64 = if neg {
        -(h as i64)
    } else {
        h as i64
    };
    let ms: i64 = if neg {
        -(m as i64)
    } else {
        m as i64
    };
    let mut r = pad2(hs);
    r.append(":");
    let minutes = pad2(ms);
    r.append(minutes.as_str());
    r.append(":00");
    proof {
        assert(r@ =~= airtime_length_model(start.seconds as int, stop.seconds as int));
    }
    r
}

/// The fixed-schema HTML description table: seven rows in a constant order.
pub open spec fn table_model(
    title: Seq<char>,
    channel: Seq<char>,
    airdate: Seq<char>,
    airtime: Seq<char>,
    length: Seq<char>,
    category: Seq<char>,
    desc: Seq<char>,
) -> Seq<char> {
    "<table><tr><td align=\"right\" valign=\"top\">Title:</td><td>"@ + title
        + "</td></tr><tr><td align=\"right\" valign=\"top\">Channel:</td><td>"@ + channel
        + "</td></tr><tr><td align=\"right\" valign=\"top\">Airdate:</td><td>"@ + airdate
        + "</td></tr><tr><td align=\"right\" valign=\"top\">Airtime:</td><td>"@ + airtime
        + "</td></tr><tr><td align=\"right\" valign=\"top\" style=\"white-space: nowrap\">Length:</td><td>"@
        + length + "</td></tr><tr><td align=\"right\" valign=\"top\">Category:</td><td>"@
        + category + "</td></tr><tr><td align=\"right\" valign=\"top\">Description:</td><td>"@
        + desc + "</td></tr></table>"@
}

/// Builds the fixed-schema HTML description table.
pub fn description_table(
    title: &str,
    channel: &str,
    airdate: &str,
    airtime: &str,
    length: &str,
    category: &str,
    desc: &str,
) -> (r: String)
    ensures
        r@ == table_model(title@, channel@, airdate@, airtime@, length@, category@, desc@),
{
    let mut r = String::new();
    r.append("<table><tr><td align=\"right\" valign=\"top\">Title:</td><td>");
    r.append(title);
    r.append("</td></tr><tr><td align=\"right\" valign=\"top\">Channel:</td><td>");
    r.append(channel);
    r.append("</td></tr><tr><td align=\"right\" valign=\"top\">Airdate:</td><td>");
    r.append(airdate);
    r.append("</td></tr><tr><td align=\"right\" valign=\"top\">Airtime:</td><td>");
    r.append(airtime);
    r.append(
        "</td></tr><tr><td align=\"right\" valign=\"top\" style=\"white-space: nowrap\">Length:</td><td>",
    );
    r.append(length);
    r.append("</td></tr><tr><td align=\"right\" valign=\"top\">Category:</td><td>");
    r.append(category);
    r.append("</td></tr><tr><td align=\"right\" valign=\"top\">Description:</td><td>");
    r.append(desc);
    r.append("</td></tr></table>");
    proof {
        assert(r@ =~= table_model(
            title@,
            channel@,
            airdate@,
            airtime@,
            length@,
            category@,
            desc@,
        ));
    }
    r
}

/// The air times of a programme, resolved through the configured primary
/// format with the fixed UTC fallback: the parsed start and stop instants,
/// or nothing when either string parses with neither format.  An absent stop
/// time defaults to the start time.
pub open spec fn programme_times_model(p: Programme, o: Options) -> Option<(int, int)> {
    let start = parse_model(
        p.start@,
        o.xmltv_datetime_format@,
        crate::xmltv::DEFAULT_XMLTV_DATETIME_FORMAT_UTC@,
    );
    let stop = parse_model(
        programme_stop_string(p),
        o.xmltv_datetime_format@,
        crate::xmltv::DEFAULT_XMLTV_DATETIME_FORMAT_UTC@,
    );
    if start is Some && stop is Some {
        Some((start.unwrap(), stop.unwrap()))
    } else {
        None
    }
}

/// The string a programme's stop time is parsed from: its stop time, or its
/// start time when the stop time is absent.
pub open spec fn programme_stop_string(p: Programme) -> Seq<char> {
    match p.stop {
        Some(s) => s@,
        None => p.start@,
    }
}

/// The input string a failing programme could not be resolved on: the start
/// time when that fails to parse, else the stop time.
pub open spec fn parse_fail_string(p: Programme, o: Options) -> Seq<char> {
    if parse_model(
        p.start@,
        o.xmltv_datetime_format@,
        crate::xmltv::DEFAULT_XMLTV_DATETIME_FORMAT_UTC@,
    ) is None {
        p.start@
    } else {
        programme_stop_string(p)
    }
}

/// Resolves a programme's start and stop instants; the one fatal failure of
/// the export.
pub fn programme_times(p: &Programme, options: &Options) -> (r: Result<(Timestamp, Timestamp),
    Error>)
    ensures
        r is Ok <==> programme_times_model(*p, *options) is Some,
        r matches Ok(t) ==> programme_times_model(*p, *options) == Some(
            (t.0.seconds as int, t.1.seconds as int),
        ),
        r matches Err(e) ==> e matches Error::Parse(m) && m@ == parse_fail_string(*p, *options),
{
    let start = match crate::xmltv::parse_from_str(
        p.start.as_str(),
        options.xmltv_datetime_format.as_str(),
        crate::xmltv::DEFAULT_XMLTV_DATETIME_FORMAT_UTC,
    ) {
        Ok(t) => t,
        Err(e) => {
            return Err(e);
        },
    };
    let stop_str = match &p.stop {
        Some(s) => s.as_str(),
        None => p.start.as_str(),
    };
    let stop = match crate::xmltv::parse_from_str(
        stop_str,
        options.xmltv_datetime_format.as_str(),
        crate::xmltv::DEFAULT_XMLTV_DATETIME_FORMAT_UTC,
    ) {
        Ok(t) => t,
        Err(e) => {
            return Err(e);
        },
    };
    Ok((start, stop))
}

/// The synthesized HTML description of a programme.
pub open spec fn programme_description_model(
    p: Programme,
    channels: Seq<Channel>,
    o: Options,
    start: int,
    stop: int,
) -> Seq<char> {
    table_model(
        find_value_model(p.titles@, resolved_lang(o)),
        channel_label_model(channels, p.channel@, resolved_lang(o)),
        fmt_utc_of(start, o.date_format@),
        fmt_utc_of(start, o.time_format@) + " - "@ + fmt_utc_of(stop, o.time_format@),
        airtime_length_model(start, stop),
        find_name_model(p.categories@, resolved_lang(o)),
        desc_body_model(find_value_model(p.descriptions@, resolved_lang(o))),
    )
}

/// Synthesizes the HTML description of a programme from its resolved fields.
pub fn programme_description(
    p: &Programme,
    channels: &Vec<Channel>,
    options: &Options,
    language: Option<&str>,
    title: &str,
    start: Timestamp,
    stop: Timestamp,
) -> (r: String)
    requires
        lang_view(language) == resolved_lang(*options),
        title@ == find_value_model(p.titles@, resolved_lang(*options)),
    ensures
        r@ == programme_description_model(
            *p,
            channels@,
            *options,
            start.seconds as int,
            stop.seconds as int,
        ),
{
    let channel = channel_label(channels, p.channel.as_str(), language);
    let airdate = format_utc(start.seconds, options.date_format.as_str());
    let mut airtime = format_utc(start.seconds, options.time_format.as_str());
    airtime.append(" - ");
    let stop_time = format_utc(stop.seconds, options.time_format.as_str());
    airtime.append(stop_time.as_str());
    let length = airtime_length(start, stop);
    let category = find_name(&p.categories, language);
    let desc_raw = find_value(&p.descriptions, language);
    let desc = render_description(desc_raw);
    description_table(
        title,
        channel.as_str(),
        airdate.as_str(),
        airtime.as_str(),
        length.as_str(),
        category,
        desc.as_str(),
    )
}

/// The offset basis of the 64-bit FNV-1a hash.
pub const FNV_OFFSET_BASIS: u64 = 0xcbf29ce484222325;

/// The prime of the 64-bit FNV-1a hash.
pub const FNV_PRIME: u64 = 0x100000001b3;

/// One step of the 64-bit FNV-1a hash over a character's code point.
pub open spec fn fnv1a_step(h: u64, c: char) -> u64 {
    ((((h ^ ((c as u32) as u64)) as int) * (FNV_PRIME as int)) % 0x10000000000000000) as u64
}

/// The 64-bit FNV-1a hash of a character sequence, folded left from `h`.
pub open spec fn fnv1a(s: Seq<char>, h: u64) -> u64
    decreases s.len(),
{
    if s.len() == 0 {
        h
    } else {
        fnv1a(s.drop_first(), fnv1a_step(h, s[0]))
    }
}

/// Computes the 64-bit FNV-1a hash of a string's characters.
pub fn fnv1a_hash(s: &str) -> (r: u64)
    ensures
        r == fnv1a(s@, FNV_OFFSET_BASIS),
{
    let n = s.unicode_len();
    let mut h: u64 = FNV_OFFSET_BASIS;
    let mut i: usize = 0;
    proof {
        assert(s@.skip(0) =~= s@);
    }
    while i < n
        invariant
            n == s@.len(),
            0 <= i <= n,
            fnv1a(s@.skip(i as int), h) == fnv1a(s@, FNV_OFFSET_BASIS),
        decreases n - i,
    {
        let c = s.get_char(i);
        let x: u64 = h ^ ((c as u32) as u64);
        let prod: u128 = (x as u128) * (FNV_PRIME as u128);
        let h2: u64 = (prod % 0x10000000000000000u128) as u64;
        proof {
            assert(s@.skip(i as int)[0] == s@[i as int]);
            assert(s@.skip(i as int).drop_first() =~= s@.skip(i as int + 1));
            assert(h2 == fnv1a_step(h, s@[i as int]));
        }
        h = h2;
        i += 1;
    }
    proof {
        assert(s@.skip(n as int) =~= Seq::<char>::empty());
    }
    h
}

/// The widening of a 64-bit digest into the 128-bit identifier value.
pub open spec fn widen64(h: u64) -> u128 {
    ((h as int) * 0xffffffffffffffff) as u128
}

/// The UUID-shaped rendering of the widened digest: five groups of lower-case
/// hexadecimal digits separated by hyphens.
pub open spec fn uuid_model(h: u64) -> Seq<char> {
    let v = widen64(h);
    hex_group_model(v, 0, 8) + "-"@ + hex_group_model(v, 8, 4) + "-"@ + hex_group_model(v, 12, 4)
        + "-"@ + hex_group_model(v, 16, 4) + "-"@ + hex_group_model(v, 20, 12)
}

/// Derives the UUID-shaped identifier value from the hashed data: a 64-bit
/// FNV-1a digest of the characters, widened to 128 bits and rendered as a
/// hyphenated hexadecimal string.
pub fn uuid(hash_data: &str) -> (r: String)
    ensures
        r@ == uuid_model(fnv1a(hash_data@, FNV_OFFSET_BASIS)),
{
    let h = fnv1a_hash(hash_data);
    proof {
        assert((h as int) * 0xffffffffffffffff <= 0xffffffffffffffff * 0xffffffffffffffff)
            by (nonlinear_arith)
            requires
                0 <= h as int <= 0xffffffffffffffff,
        ;
    }
    let v: u128 = (h as u128) * 0xffffffffffffffffu128;
    let mut r = hex_group(v, 0, 8);
    r.append("-");
    let g2 = hex_group(v, 8, 4);
    r.append(g2.as_str());
    r.append("-");
    let g3 = hex_group(v, 12, 4);
    r.append(g3.as_str());
    r.append("-");
    let g4 = hex_group(v, 16, 4);
    r.append(g4.as_str());
    r.append("-");
    let g5 = hex_group(v, 20, 12);
    r.append(g5.as_str());
    proof {
        assert(r@ =~= uuid_model(fnv1a(hash_data@, FNV_OFFSET_BASIS)));
    }
    r
}

/// The string the identifier of an entry is hashed from: the channel id and
/// the canonically formatted start instant.
pub open spec fn identifier_key_model(channel: Seq<char>, start: int) -> Seq<char> {
    channel + "-"@ + fmt_utc_of(start, GUID_DATETIME_FORMAT@)
}

/// The identifier value of an entry: a deterministic pure function of the
/// channel id and the resolved start instant.
pub open spec fn identifier_model(channel: Seq<char>, start: int) -> Seq<char> {
    uuid_model(fnv1a(identifier_key_model(channel, start), FNV_OFFSET_BASIS))
}

/// Derives the stable unique identifier of an entry from its channel id and
/// resolved start instant.
pub fn programme_identifier(channel_id: &str, start: Timestamp) -> (r: String)
    ensures
        r@ == identifier_model(channel_id@, start.seconds as int),
{
    let mut key = channel_id.to_owned();
    key.append("-");
    let canon = format_utc(start.seconds, GUID_DATETIME_FORMAT);
    key.append(canon.as_str());
    proof {
        assert(key@ =~= identifier_key_model(channel_id@, start.seconds as int));
    }
    uuid(key.as_str())
}

/// The identifier is a deterministic pure function of the channel id and the
/// canonical start instant: equal inputs yield equal identifiers, on every
/// run and in both feed formats.
pub proof fn lemma_identifier_deterministic(
    channel_a: Seq<char>,
    start_a: int,
    channel_b: Seq<char>,
    start_b: int,
)
    requires
        channel_a == channel_b,
        start_a == start_b,
    ensures
        identifier_model(channel_a, start_a) == identifier_model(channel_b, start_b),
{
}

/// A programme whose channel id the listing does not know still yields an
/// entry; its channel label is the bare channel id.
pub proof fn lemma_missing_channel_label(
    channels: Seq<Channel>,
    id: Seq<char>,
    language: Option<Seq<char>>,
)
    requires
        find_channel_match(channels, id) is None,
    ensures
        channel_label_model(channels, id, language) == id,
{
}

/// The export visitor: a small state machine over the ordered lifecycle
/// calls `visit_tv`, `visit_programmes_start`, one `visit_programme` per
/// programme in document order, `visit_programmes_end`, and `result`.
///
/// The spec functions are the visitor's abstract state: which programmes it
/// accepts, what entry it derives from each, the scratch entry list, and the
/// entries committed to the feed.  The lifecycle contracts say that the only
/// fallible call is `visit_programme`, that it appends exactly the derived
/// entry, and that no call changes what the visitor would derive.
pub trait Visitor: Sized {
    type Output;

    /// The abstract value of one derived entry.
    type Entry;

    /// Whether an entry can be derived from the programme.
    spec fn accepts(&self, p: Programme) -> bool;

    /// The entry derived from the programme.
    spec fn entry_of(&self, p: Programme) -> Self::Entry;

    /// The scratch list of entries accumulated so far.
    spec fn entries(&self) -> Seq<Self::Entry>;

    /// The entries committed to the feed container.
    spec fn committed(&self) -> Seq<Self::Entry>;

    /// The entries a finished output carries.
    spec fn output_entries(out: Self::Output) -> Seq<Self::Entry>;

    /// Initializes the output feed's header from the listing.
    fn visit_tv(&mut self, listing: &Tv) -> (r: Result<(), Error>)
        ensures
            r is Ok,
            final(self).entries() == old(self).entries(),
            forall|p: Programme|
                #![trigger final(self).accepts(p)]
                #![trigger old(self).accepts(p)]
                final(self).accepts(p) == old(self).accepts(p),
            forall|p: Programme|
                #![trigger final(self).entry_of(p)]
                #![trigger old(self).entry_of(p)]
                final(self).entry_of(p) == old(self).entry_of(p),
    ;

    /// Resets the scratch entry list.
    fn visit_programmes_start(&mut self) -> (r: Result<(), Error>)
        ensures
            r is Ok,
            final(self).entries() == Seq::<Self::Entry>::empty(),
            forall|p: Programme|
                #![trigger final(self).accepts(p)]
                #![trigger old(self).accepts(p)]
                final(self).accepts(p) == old(self).accepts(p),
            forall|p: Programme|
                #![trigger final(self).entry_of(p)]
                #![trigger old(self).entry_of(p)]
                final(self).entry_of(p) == old(self).entry_of(p),
    ;

    /// Appends one entry derived from the programme, or fails the export on
    /// an unparsable programme time.
    fn visit_programme(&mut self, programme: &Programme) -> (r: Result<(), Error>)
        ensures
            r is Ok <==> old(self).accepts(*programme),
            r is Ok ==> final(self).entries() == old(self).entries().push(
                old(self).entry_of(*programme),
            ),
            r is Err ==> final(self).entries() == old(self).entries(),
            forall|p: Programme|
                #![trigger final(self).accepts(p)]
                #![trigger old(self).accepts(p)]
                final(self).accepts(p) == old(self).accepts(p),
            forall|p: Programme|
                #![trigger final(self).entry_of(p)]
                #![trigger old(self).entry_of(p)]
                final(self).entry_of(p) == old(self).entry_of(p),
    ;

    /// Commits the accumulated entries to the feed in traversal order, then
    /// clears the scratch list.
    fn visit_programmes_end(&mut self) -> (r: Result<(), Error>)
        ensures
            r is Ok,
            final(self).committed() == old(self).entries(),
            final(self).entries() == Seq::<Self::Entry>::empty(),
            forall|p: Programme|
                #![trigger final(self).accepts(p)]
                #![trigger old(self).accepts(p)]
                final(self).accepts(p) == old(self).accepts(p),
            forall|p: Programme|
                #![trigger final(self).entry_of(p)]
                #![trigger old(self).entry_of(p)]
                final(self).entry_of(p) == old(self).entry_of(p),
    ;

    /// Yields the finished feed, carrying the committed entries.
    fn result(self) -> (r: Result<Self::Output, Error>)
        ensures
            r matches Ok(out) && Self::output_entries(out) == self.committed(),
    ;
}

/// Whether the derivation rules of two visitor states agree: they accept
/// the same programmes and derive the same entry from each.
pub open spec fn same_derivation<V: Visitor>(a: &V, b: &V) -> bool {
    &&& forall|p: Programme|
        #![trigger a.accepts(p)]
        #![trigger b.accepts(p)]
        a.accepts(p) == b.accepts(p)
    &&& forall|p: Programme|
        #![trigger a.entry_of(p)]
        #![trigger b.entry_of(p)]
        a.entry_of(p) == b.entry_of(p)
}

/// Exports from an XMLTV TV listing to some output type: drives the
/// visitor's lifecycle calls in the fixed order over the listing.  The
/// export succeeds exactly when the visitor accepts every programme, and the
/// output then carries one entry per programme, in document order, each the
/// entry the visitor derives from the programme at the same position.
pub fn export<V: Visitor>(visitor: V, listing: &Tv) -> (r: Result<V::Output, Error>)
    ensures
        r is Ok <==> forall|i: int|
            0 <= i < listing.programmes@.len() ==> visitor.accepts(
                #[trigger] listing.programmes@[i],
            ),
        r matches Ok(out) ==> V::output_entries(out) == Seq::new(
            listing.programmes@.len(),
            |i: int| visitor.entry_of(listing.programmes@[i]),
        ),
{
    let mut v = visitor;
    match v.visit_tv(listing) {
        Ok(()) => (),
        Err(_) => {
            return unreached();
        },
    }
    match v.visit_programmes_start() {
        Ok(()) => (),
        Err(_) => {
            return unreached();
        },
    }
    let n = listing.programmes.len();
    let mut i: usize = 0;
    while i < n
        invariant
            n == listing.programmes@.len(),
            0 <= i <= n,
            forall|k: int| 0 <= k < i ==> visitor.accepts(#[trigger] listing.programmes@[k]),
            v.entries() == Seq::new(
                i as nat,
                |k: int| visitor.entry_of(listing.programmes@[k]),
            ),
            same_derivation(&v, &visitor),
        decreases n - i,
    {
        match v.visit_programme(&listing.programmes[i]) {
            Ok(()) => (),
            Err(e) => {
                proof {
                    assert(!visitor.accepts(listing.programmes@[i as int]));
                }
                return Err(e);
            },
        }
        proof {
            assert(v.entries() =~= Seq::new(
                (i + 1) as nat,
                |k: int| visitor.entry_of(listing.programmes@[k]),
            ));
        }
        i += 1;
    }
    match v.visit_programmes_end() {
        Ok(()) => (),
        Err(_) => {
            return unreached();
        },
    }
    match v.result() {
        Ok(out) => Ok(out),
        Err(_) => unreached(),
    }
}

} // verus!
