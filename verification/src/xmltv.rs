//! The XMLTV listing model the engine consumes, and the access functions
//! that resolve language-tagged fields.

use vstd::prelude::*;

use crate::datetime::{parse_datetime_naive, parse_datetime_tz, parse_naive_of, parse_tz_of,
    Timestamp};
use crate::error::Error;

verus! {

/// Datetime format with timezone, the default primary input format.
pub const DEFAULT_XMLTV_DATETIME_FORMAT: &'static str = "%Y%m%d%H%M%S %z";

/// Datetime format without timezone, the fixed UTC fallback format.
pub const DEFAULT_XMLTV_DATETIME_FORMAT_UTC: &'static str = "%Y%m%d%H%M%S";

/// A display name with an optional language tag.
#[derive(Debug, Clone, PartialEq, Eq)]
pub struct NameAndLang {
    pub name: String,
    pub lang: Option<String>,
}

/// A text value with an optional language tag.
#[derive(Debug, Clone, PartialEq, Eq)]
pub struct ValueAndLang {
    pub value: String,
    pub lang: Option<String>,
}

/// A URL attached to a programme.
#[derive(Debug, Clone, PartialEq, Eq)]
pub struct Url {
    pub value: String,
}

/// A channel of the listing: an identifier and its display names.
#[derive(Debug, Clone, PartialEq, Eq)]
pub struct Channel {
    pub id: String,
    pub display_names: Vec<NameAndLang>,
}

/// A scheduled programme of the listing.
#[derive(Debug, Clone, PartialEq, Eq)]
pub struct Programme {
    /// Channel identifier; a foreign reference that may not resolve.
    pub channel: String,
    /// Start time, as the raw string of the document.
    pub start: String,
    /// Stop time; absent means "same as start".
    pub stop: Option<String>,
    pub titles: Vec<ValueAndLang>,
    pub categories: Vec<NameAndLang>,
    pub descriptions: Vec<ValueAndLang>,
    pub urls: Vec<Url>,
}

/// A parsed listing: channels and programmes, both in document order.
#[derive(Debug, Clone, PartialEq, Eq)]
pub struct Tv {
    pub channels: Vec<Channel>,
    pub programmes: Vec<Programme>,
}

/// The view of an optional borrowed string.
pub open spec fn lang_view(language: Option<&str>) -> Option<Seq<char>> {
    match language {
        Some(l) => Some(l@),
        None => None,
    }
}

/// Whether an element's language tag equals the wanted tag.
pub open spec fn lang_matches(lang: Option<String>, want: Seq<char>) -> bool {
    lang matches Some(l) && l@ == want
}

/// The first name whose language tag equals `want`, if any.
pub open spec fn find_match_name(elems: Seq<NameAndLang>, want: Seq<char>) -> Option<Seq<char>>
    decreases elems.len(),
{
    if elems.len() == 0 {
        None
    } else if lang_matches(elems[0].lang, want) {
        Some(elems[0].name@)
    } else {
        find_match_name(elems.drop_first(), want)
    }
}

/// The first value whose language tag equals `want`, if any.
pub open spec fn find_match_value(elems: Seq<ValueAndLang>, want: Seq<char>) -> Option<Seq<char>>
    decreases elems.len(),
{
    if elems.len() == 0 {
        None
    } else if lang_matches(elems[0].lang, want) {
        Some(elems[0].value@)
    } else {
        find_match_value(elems.drop_first(), want)
    }
}

/// What `find_name` returns: the name in the requested language, or else the
/// first name, or else the empty string.
pub open spec fn find_name_model(elems: Seq<NameAndLang>, language: Option<Seq<char>>) -> Seq<
    char,
> {
    if elems.len() == 0 {
        Seq::<char>::empty()
    } else {
        match language {
            None => elems[0].name@,
            Some(want) => match find_match_name(elems, want) {
                Some(n) => n,
                None => elems[0].name@,
            },
        }
    }
}

/// What `find_value` returns: the value in the requested language, or else the
/// first value, or else the empty string.
pub open spec fn find_value_model(elems: Seq<ValueAndLang>, language: Option<Seq<char>>) -> Seq<
    char,
> {
    if elems.len() == 0 {
        Seq::<char>::empty()
    } else {
        match language {
            None => elems[0].value@,
            Some(want) => match find_match_value(elems, want) {
                Some(v) => v,
                None => elems[0].value@,
            },
        }
    }
}

proof fn lemma_find_match_name_skip(elems: Seq<NameAndLang>, want: Seq<char>, i: int)
    requires
        0 <= i <= elems.len(),
        forall|k: int| 0 <= k < i ==> !lang_matches(elems[k].lang, want),
    ensures
        find_match_name(elems, want) == find_match_name(elems.skip(i), want),
    decreases i,
{
    if i == 0 {
        assert(elems.skip(0) =~= elems);
    } else {
        assert(!lang_matches(elems[0].lang, want));
        lemma_find_match_name_skip(elems.drop_first(), want, i - 1);
        assert(elems.drop_first().skip(i - 1) =~= elems.skip(i));
    }
}

proof fn lemma_find_match_value_skip(elems: Seq<ValueAndLang>, want: Seq<char>, i: int)
    requires
        0 <= i <= elems.len(),
        forall|k: int| 0 <= k < i ==> !lang_matches(elems[k].lang, want),
    ensures
        find_match_value(elems, want) == find_match_value(elems.skip(i), want),
    decreases i,
{
    if i == 0 {
        assert(elems.skip(0) =~= elems);
    } else {
        assert(!lang_matches(elems[0].lang, want));
        lemma_find_match_value_skip(elems.drop_first(), want, i - 1);
        assert(elems.drop_first().skip(i - 1) =~= elems.skip(i));
    }
}

/// Returns the name in the specified language or else the first name or else
/// an empty string.
pub fn find_name<'a>(elements: &'a Vec<NameAndLang>, language: Option<&str>) -> (r: &'a str)
    ensures
        r@ == find_name_model(elements@, lang_view(language)),
{
    proof {
        reveal_strlit("");
    }
    match language {
        None => {
            if elements.len() > 0 {
                elements[0].name.as_str()
            } else {
                ""
            }
        },
        Some(want) => {
            let want_owned = want.to_owned();
            let n = elements.len();
            let mut i: usize = 0;
            while i < n
                invariant
                    n == elements@.len(),
                    0 <= i <= n,
                    lang_view(language) == Some(want@),
                    want_owned@ == want@,
                    forall|k: int| 0 <= k < i ==> !lang_matches(elements@[k].lang, want@),
                decreases n - i,
            {
                let matched = match &elements[i].lang {
                    Some(l) => *l == want_owned,
                    None => false,
                };
                if matched {
                    proof {
                        lemma_find_match_name_skip(elements@, want@, i as int);
                        assert(elements@.skip(i as int)[0] == elements@[i as int]);
                        assert(find_match_name(elements@.skip(i as int), want@)
                            == Some(elements@[i as int].name@));
                    }
                    return elements[i].name.as_str();
                }
                i += 1;
            }
            proof {
                lemma_find_match_name_skip(elements@, want@, n as int);
                assert(elements@.skip(n as int) =~= Seq::<NameAndLang>::empty());
            }
            if elements.len() > 0 {
                elements[0].name.as_str()
            } else {
                ""
            }
        },
    }
}

/// Returns the value in the specified language or else the first value or
/// else an empty string.
pub fn find_value<'a>(elements: &'a Vec<ValueAndLang>, language: Option<&str>) -> (r: &'a str)
    ensures
        r@ == find_value_model(elements@, lang_view(language)),
{
    proof {
        reveal_strlit("");
    }
    match language {
        None => {
            if elements.len() > 0 {
                elements[0].value.as_str()
            } else {
                ""
            }
        },
        Some(want) => {
            let want_owned = want.to_owned();
            let n = elements.len();
            let mut i: usize = 0;
            while i < n
                invariant
                    n == elements@.len(),
                    0 <= i <= n,
                    lang_view(language) == Some(want@),
                    want_owned@ == want@,
                    forall|k: int| 0 <= k < i ==> !lang_matches(elements@[k].lang, want@),
                decreases n - i,
            {
                let matched = match &elements[i].lang {
                    Some(l) => *l == want_owned,
                    None => false,
                };
                if matched {
                    proof {
                        lemma_find_match_value_skip(elements@, want@, i as int);
                        assert(elements@.skip(i as int)[0] == elements@[i as int]);
                        assert(find_match_value(elements@.skip(i as int), want@)
                            == Some(elements@[i as int].value@));
                    }
                    return elements[i].value.as_str();
                }
                i += 1;
            }
            proof {
                lemma_find_match_value_skip(elements@, want@, n as int);
                assert(elements@.skip(n as int) =~= Seq::<ValueAndLang>::empty());
            }
            if elements.len() > 0 {
                elements[0].value.as_str()
            } else {
                ""
            }
        },
    }
}

/// What `first_url` returns.
pub open spec fn first_url_model(urls: Seq<Url>) -> Option<Seq<char>> {
    if urls.len() == 0 {
        None
    } else {
        Some(urls[0].value@)
    }
}

/// Tries to return the first URL string.
pub fn first_url(urls: &Vec<Url>) -> (r: Option<String>)
    ensures
        r is Some <==> first_url_model(urls@) is Some,
        r matches Some(u) ==> first_url_model(urls@) == Some(u@),
{
    if urls.len() > 0 {
        Some(urls[0].value.clone())
    } else {
        None
    }
}

/// What `parse_from_str` resolves a raw datetime string to: the primary,
/// timezone-aware format is tried first, then the timezone-naive fallback
/// format, read as UTC.
pub open spec fn parse_model(s: Seq<char>, fmt: Seq<char>, naive_fmt: Seq<char>) -> Option<int> {
    if parse_tz_of(s, fmt) is Some {
        parse_tz_of(s, fmt)
    } else {
        parse_naive_of(s, naive_fmt)
    }
}

/// Tries parsing with a datetime format string, which is timezone-aware.
/// Or else tries parsing with a naive datetime format string, which has no
/// timezone and is read as UTC.  Both failing is the one fatal error of the
/// export engine.
pub fn parse_from_str(datetime: &str, datetime_format: &str, naive_datetime_format: &str) -> (r:
    Result<Timestamp, Error>)
    ensures
        r is Ok <==> parse_model(datetime@, datetime_format@, naive_datetime_format@) is Some,
        r matches Ok(t) ==> parse_model(datetime@, datetime_format@, naive_datetime_format@)
            == Some(t.seconds as int),
        r matches Err(e) ==> e matches Error::Parse(m) && m@ == datetime@,
{
    match parse_datetime_tz(datetime, datetime_format) {
        Some(seconds) => Ok(Timestamp { seconds }),
        None => match parse_datetime_naive(datetime, naive_datetime_format) {
            Some(seconds) => Ok(Timestamp { seconds }),
            None => Err(Error::Parse(datetime.to_owned())),
        },
    }
}

} // verus!
