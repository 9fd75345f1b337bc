//! Atom export: the feed model and the visitor that accumulates it.

use vstd::prelude::*;
use vstd::pervasive::unreached;

use crate::datetime::Timestamp;
use crate::error::Error;
use crate::export::{
    effective_language, identifier_model, opt_string_view, parse_fail_string,
    programme_description, programme_description_model, programme_identifier, programme_times,
    programme_times_model, resolved_lang, Options, Visitor, DEFAULT_FEED_CHANNEL_DESCRIPTION,
    DEFAULT_FEED_CHANNEL_TITLE,
};
use crate::export::rss::{defaulted_title, rss_item_model};
use crate::xmltv::{
    find_value, find_value_model, first_url, first_url_model, lang_view, Programme, Tv,
};

verus! {

/// The view of an optional timestamp: its epoch seconds.
pub open spec fn opt_ts_view(t: Option<Timestamp>) -> Option<int> {
    match t {
        Some(x) => Some(x.seconds as int),
        None => None,
    }
}

/// The abstract value of an Atom entry.
#[verifier::ext_equal]
pub struct EntryModel {
    pub title: Seq<char>,
    pub link: Seq<char>,
    pub summary: Seq<char>,
    pub id: Seq<char>,
    pub published: int,
    pub updated: int,
}

/// The abstract value of an Atom feed.
#[verifier::ext_equal]
pub struct FeedModel {
    pub title: Seq<char>,
    pub link: Seq<char>,
    pub subtitle: Option<Seq<char>>,
    pub lang: Option<Seq<char>>,
    pub generator: Seq<char>,
    pub updated: Option<int>,
    pub entries: Seq<EntryModel>,
}

/// One entry of the output feed, derived from one programme.
#[derive(Debug, Clone, PartialEq, Eq)]
pub struct Entry {
    pub title: String,
    pub link: String,
    pub summary: String,
    pub id: String,
    pub published: Timestamp,
    pub updated: Timestamp,
}

impl View for Entry {
    type V = EntryModel;

    open spec fn view(&self) -> EntryModel {
        EntryModel {
            title: self.title@,
            link: self.link@,
            summary: self.summary@,
            id: self.id@,
            published: self.published.seconds as int,
            updated: self.updated.seconds as int,
        }
    }
}

/// The output feed: an Atom feed.
#[derive(Debug, Clone, PartialEq, Eq)]
pub struct Feed {
    pub title: String,
    pub link: String,
    pub subtitle: Option<String>,
    pub lang: Option<String>,
    pub generator: String,
    pub updated: Option<Timestamp>,
    pub entries: Vec<Entry>,
}

impl View for Feed {
    type V = FeedModel;

    open spec fn view(&self) -> FeedModel {
        FeedModel {
            title: self.title@,
            link: self.link@,
            subtitle: opt_string_view(self.subtitle),
            lang: opt_string_view(self.lang),
            generator: self.generator@,
            updated: opt_ts_view(self.updated),
            entries: entries_model(self.entries@),
        }
    }
}

/// The abstract values of a sequence of entries.
pub open spec fn entries_model(entries: Seq<Entry>) -> Seq<EntryModel> {
    entries.map_values(|e: Entry| e@)
}

/// The identifier of an Atom entry: the shared hash-derived value behind a
/// URN prefix.
pub open spec fn atom_id_model(channel: Seq<char>, start: int) -> Seq<char> {
    "urn:uuid:"@ + identifier_model(channel, start)
}

/// The entry derived from a programme, defined when its times resolve; its
/// published and updated instants both equal the resolved start time.
pub open spec fn atom_entry_model(
    p: Programme,
    channels: Seq<crate::xmltv::Channel>,
    o: Options,
) -> EntryModel {
    let times = programme_times_model(p, o).unwrap();
    EntryModel {
        title: find_value_model(p.titles@, resolved_lang(o)),
        link: match first_url_model(p.urls@) {
            Some(u) => u,
            None => Seq::<char>::empty(),
        },
        summary: programme_description_model(p, channels, o, times.0, times.1),
        id: atom_id_model(p.channel@, times.0),
        published: times.0,
        updated: times.0,
    }
}

/// The whole output feed as a function of the inputs, defined when every
/// programme's times resolve.
pub open spec fn atom_feed_model(
    title: Seq<char>,
    link: Seq<char>,
    subtitle: Option<Seq<char>>,
    updated: Option<int>,
    o: Options,
    listing: Tv,
) -> FeedModel {
    FeedModel {
        title: defaulted_title(title),
        link: link,
        subtitle: subtitle,
        lang: opt_string_view(o.language),
        generator: DEFAULT_FEED_CHANNEL_DESCRIPTION@,
        updated: updated,
        entries: Seq::new(
            listing.programmes@.len(),
            |i: int| atom_entry_model(listing.programmes@[i], listing.channels@, o),
        ),
    }
}

/// The model of a feed whose header was not filled in yet.
pub open spec fn empty_feed_model() -> FeedModel {
    FeedModel {
        title: Seq::<char>::empty(),
        link: Seq::<char>::empty(),
        subtitle: None,
        lang: None,
        generator: Seq::<char>::empty(),
        updated: None,
        entries: Seq::<EntryModel>::empty(),
    }
}

/// Atom feed export visitor.
pub struct Atom<'a> {
    pub title: &'a str,
    pub link: &'a str,
    pub subtitle: Option<&'a str>,
    pub updated: Option<Timestamp>,
    pub options: &'a Options,
    pub xmltv_channels: &'a Vec<crate::xmltv::Channel>,
    pub feed: Feed,
    pub entries: Vec<Entry>,
}

impl<'a> Atom<'a> {
    /// A fresh visitor; an empty caller title is replaced by the default.
    pub fn new(
        title: &'a str,
        link: &'a str,
        subtitle: Option<&'a str>,
        updated: Option<Timestamp>,
        options: &'a Options,
        xmltv_channels: &'a Vec<crate::xmltv::Channel>,
    ) -> (r: Self)
        ensures
            r.title@ == defaulted_title(title@),
            r.link@ == link@,
            lang_view(r.subtitle) == lang_view(subtitle),
            r.updated == updated,
            r.options == options,
            r.xmltv_channels == xmltv_channels,
            r.feed@ == empty_feed_model(),
            r.entries@ == Seq::<Entry>::empty(),
    {
        let title = if !title.is_empty() {
            title
        } else {
            DEFAULT_FEED_CHANNEL_TITLE
        };
        let r = Atom {
            title,
            link,
            subtitle,
            updated,
            options,
            xmltv_channels,
            feed: Feed {
                title: String::new(),
                link: String::new(),
                subtitle: None,
                lang: None,
                generator: String::new(),
                updated: None,
                entries: Vec::new(),
            },
            entries: Vec::new(),
        };
        proof {
            assert(r.feed@ =~= empty_feed_model());
        }
        r
    }

    /// Initializes the feed header: title, link, generator, and the optional
    /// subtitle, language and update instant, which are only ever set, never
    /// cleared.
    pub fn visit_tv(&mut self, listing: &Tv) -> (r: Result<(), Error>)
        ensures
            r is Ok,
            final(self).feed.title@ == old(self).title@,
            final(self).feed.link@ == old(self).link@,
            final(self).feed.generator@ == DEFAULT_FEED_CHANNEL_DESCRIPTION@,
            opt_string_view(final(self).feed.subtitle) == match old(self).subtitle {
                Some(s) => Some(s@),
                None => opt_string_view(old(self).feed.subtitle),
            },
            opt_string_view(final(self).feed.lang) == match old(self).options.language {
                Some(l) => Some(l@),
                None => opt_string_view(old(self).feed.lang),
            },
            final(self).feed.updated == match old(self).updated {
                Some(u) => Some(u),
                None => old(self).feed.updated,
            },
            final(self).feed.entries == old(self).feed.entries,
            final(self).entries == old(self).entries,
            final(self).title == old(self).title,
            final(self).link == old(self).link,
            final(self).subtitle == old(self).subtitle,
            final(self).updated == old(self).updated,
            final(self).options == old(self).options,
            final(self).xmltv_channels == old(self).xmltv_channels,
    {
        let _ = listing;
        self.feed.title = self.title.to_owned();
        self.feed.link = self.link.to_owned();
        self.feed.generator = DEFAULT_FEED_CHANNEL_DESCRIPTION.to_owned();
        match self.subtitle {
            Some(s) => {
                self.feed.subtitle = Some(s.to_owned());
            },
            None => (),
        }
        match &self.options.language {
            Some(l) => {
                self.feed.lang = Some(l.clone());
            },
            None => (),
        }
        match self.updated {
            Some(u) => {
                self.feed.updated = Some(u);
            },
            None => (),
        }
        Ok(())
    }

    /// Resets the scratch entry list.
    pub fn visit_programmes_start(&mut self) -> (r: Result<(), Error>)
        ensures
            r is Ok,
            final(self).entries@ == Seq::<Entry>::empty(),
            final(self).feed == old(self).feed,
            final(self).title == old(self).title,
            final(self).link == old(self).link,
            final(self).subtitle == old(self).subtitle,
            final(self).updated == old(self).updated,
            final(self).options == old(self).options,
            final(self).xmltv_channels == old(self).xmltv_channels,
    {
        self.entries = Vec::new();
        Ok(())
    }

    /// Derives one entry from the programme and appends it, or fails the
    /// whole export when a programme time parses with neither format.
    pub fn visit_programme(&mut self, programme: &Programme) -> (r: Result<(), Error>)
        ensures
            r is Ok <==> programme_times_model(*programme, *old(self).options) is Some,
            r is Ok ==> entries_model(final(self).entries@) == entries_model(
                old(self).entries@,
            ).push(atom_entry_model(*programme, old(self).xmltv_channels@, *old(self).options)),
            r matches Err(e) ==> e matches Error::Parse(m) && m@ == parse_fail_string(
                *programme,
                *old(self).options,
            ),
            r is Err ==> final(self).entries == old(self).entries,
            final(self).feed == old(self).feed,
            final(self).title == old(self).title,
            final(self).link == old(self).link,
            final(self).subtitle == old(self).subtitle,
            final(self).updated == old(self).updated,
            final(self).options == old(self).options,
            final(self).xmltv_channels == old(self).xmltv_channels,
    {
        let language = effective_language(self.options);
        let times = match programme_times(programme, self.options) {
            Ok(t) => t,
            Err(e) => {
                return Err(e);
            },
        };
        let start = times.0;
        let stop = times.1;
        let title = find_value(&programme.titles, language);
        let link = match first_url(&programme.urls) {
            Some(u) => u,
            None => String::new(),
        };
        let summary = programme_description(
            programme,
            self.xmltv_channels,
            self.options,
            language,
            title,
            start,
            stop,
        );
        let mut id = "urn:uuid:".to_owned();
        let value = programme_identifier(programme.channel.as_str(), start);
        id.append(value.as_str());
        let entry = Entry {
            title: title.to_owned(),
            link,
            summary,
            id,
            published: start,
            updated: start,
        };
        proof {
            assert(entry@ =~= atom_entry_model(*programme, self.xmltv_channels@, *self.options));
        }
        self.entries.push(entry);
        proof {
            assert(entries_model(final(self).entries@) =~= entries_model(old(self).entries@).push(
                atom_entry_model(*programme, old(self).xmltv_channels@, *old(self).options),
            ));
        }
        Ok(())
    }

    /// Commits the accumulated entries to the feed in traversal order, then
    /// clears the scratch list.
    pub fn visit_programmes_end(&mut self) -> (r: Result<(), Error>)
        ensures
            r is Ok,
            entries_model(final(self).feed.entries@) == entries_model(old(self).entries@),
            final(self).feed.title == old(self).feed.title,
            final(self).feed.link == old(self).feed.link,
            final(self).feed.subtitle == old(self).feed.subtitle,
            final(self).feed.lang == old(self).feed.lang,
            final(self).feed.generator == old(self).feed.generator,
            final(self).feed.updated == old(self).feed.updated,
            final(self).entries@ == Seq::<Entry>::empty(),
            final(self).title == old(self).title,
            final(self).link == old(self).link,
            final(self).subtitle == old(self).subtitle,
            final(self).updated == old(self).updated,
            final(self).options == old(self).options,
            final(self).xmltv_channels == old(self).xmltv_channels,
    {
        let mut entries: Vec<Entry> = Vec::new();
        std::mem::swap(&mut entries, &mut self.entries);
        self.feed.entries = entries;
        Ok(())
    }

    /// Yields the finished feed.
    pub fn result(self) -> (r: Result<Feed, Error>)
        ensures
            r matches Ok(f) && f == self.feed,
    {
        Ok(self.feed)
    }
}

impl Visitor for Atom<'_> {
    type Output = Feed;

    type Entry = EntryModel;

    open spec fn accepts(&self, p: Programme) -> bool {
        programme_times_model(p, *self.options) is Some
    }

    open spec fn entry_of(&self, p: Programme) -> EntryModel {
        atom_entry_model(p, self.xmltv_channels@, *self.options)
    }

    open spec fn entries(&self) -> Seq<EntryModel> {
        entries_model(self.entries@)
    }

    open spec fn committed(&self) -> Seq<EntryModel> {
        entries_model(self.feed.entries@)
    }

    open spec fn output_entries(out: Feed) -> Seq<EntryModel> {
        entries_model(out.entries@)
    }

    fn visit_tv(&mut self, listing: &Tv) -> Result<(), Error> {
        Atom::visit_tv(self, listing)
    }

    fn visit_programmes_start(&mut self) -> Result<(), Error> {
        Atom::visit_programmes_start(self)
    }

    fn visit_programme(&mut self, programme: &Programme) -> Result<(), Error> {
        Atom::visit_programme(self, programme)
    }

    fn visit_programmes_end(&mut self) -> Result<(), Error> {
        Atom::visit_programmes_end(self)
    }

    fn result(self) -> Result<Feed, Error> {
        Atom::result(self)
    }
}

/// Exports an XMLTV TV listing to an Atom feed: succeeds exactly when every
/// programme's times resolve, and then yields the feed that
/// `atom_feed_model` describes; the first unresolvable programme otherwise
/// aborts the whole export with its offending input string.
pub fn export_to_atom(
    title: &str,
    link: &str,
    subtitle: Option<&str>,
    updated: Option<Timestamp>,
    options: &Options,
    listing: &Tv,
) -> (r: Result<Feed, Error>)
    ensures
        r is Ok <==> crate::export::rss::all_times_resolve(*listing, *options),
        r matches Ok(f) ==> f@ == atom_feed_model(
            title@,
            link@,
            lang_view(subtitle),
            opt_ts_view(updated),
            *options,
            *listing,
        ),
        r matches Err(e) ==> exists|i: int|
            {
                &&& 0 <= i < listing.programmes@.len()
                &&& programme_times_model(#[trigger] listing.programmes@[i], *options) is None
                &&& forall|k: int|
                    0 <= k < i ==> programme_times_model(
                        #[trigger] listing.programmes@[k],
                        *options,
                    ) is Some
                &&& e matches Error::Parse(m) && m@ == parse_fail_string(
                    listing.programmes@[i],
                    *options,
                )
            },
{
    let ghost title_view = title@;
    let mut visitor = Atom::new(title, link, subtitle, updated, options, &listing.channels);
    match visitor.visit_tv(listing) {
        Ok(()) => (),
        Err(_) => {
            return unreached();
        },
    }
    match visitor.visit_programmes_start() {
        Ok(()) => (),
        Err(_) => {
            return unreached();
        },
    }
    let ghost header = visitor.feed;
    let n = listing.programmes.len();
    let mut i: usize = 0;
    proof {
        assert(entries_model(visitor.entries@) =~= Seq::<EntryModel>::empty());
    }
    while i < n
        invariant
            n == listing.programmes@.len(),
            0 <= i <= n,
            forall|k: int|
                0 <= k < i ==> programme_times_model(
                    #[trigger] listing.programmes@[k],
                    *options,
                ) is Some,
            entries_model(visitor.entries@) == Seq::new(
                i as nat,
                |k: int| atom_entry_model(listing.programmes@[k], listing.channels@, *options),
            ),
            visitor.options == options,
            visitor.xmltv_channels == &listing.channels,
            visitor.feed == header,
        decreases n - i,
    {
        match visitor.visit_programme(&listing.programmes[i]) {
            Ok(()) => (),
            Err(e) => {
                proof {
                    assert(programme_times_model(listing.programmes@[i as int], *options)
                        is None);
                }
                return Err(e);
            },
        }
        proof {
            assert(entries_model(visitor.entries@) =~= Seq::new(
                (i + 1) as nat,
                |k: int| atom_entry_model(listing.programmes@[k], listing.channels@, *options),
            ));
        }
        i += 1;
    }
    match visitor.visit_programmes_end() {
        Ok(()) => (),
        Err(_) => {
            return unreached();
        },
    }
    match visitor.result() {
        Ok(f) => {
            proof {
                assert(f@ =~= atom_feed_model(
                    title_view,
                    link@,
                    lang_view(subtitle),
                    opt_ts_view(updated),
                    *options,
                    *listing,
                ));
            }
            Ok(f)
        },
        Err(_) => unreached(),
    }
}

/// Entry order is preserved: the output feed has exactly one entry per
/// programme, in document order, each derived from the programme at the same
/// position.
pub proof fn lemma_atom_entry_order(
    f: FeedModel,
    title: Seq<char>,
    link: Seq<char>,
    subtitle: Option<Seq<char>>,
    updated: Option<int>,
    o: Options,
    listing: Tv,
)
    requires
        f == atom_feed_model(title, link, subtitle, updated, o, listing),
    ensures
        f.entries.len() == listing.programmes@.len(),
        forall|i: int|
            0 <= i < listing.programmes@.len() ==> f.entries[i] == atom_entry_model(
                #[trigger] listing.programmes@[i],
                listing.channels@,
                o,
            ),
{
}

/// The export is deterministic: two runs over the same listing, options and
/// externally supplied update instant yield the same feed.
pub proof fn lemma_atom_export_deterministic(
    f1: FeedModel,
    f2: FeedModel,
    title: Seq<char>,
    link: Seq<char>,
    subtitle: Option<Seq<char>>,
    updated: Option<int>,
    o: Options,
    listing: Tv,
)
    requires
        f1 == atom_feed_model(title, link, subtitle, updated, o, listing),
        f2 == atom_feed_model(title, link, subtitle, updated, o, listing),
    ensures
        f1 == f2,
{
}

/// Across the two formats the identifier value is shared: for the same
/// programme the Atom entry id is exactly the RSS item guid behind the URN
/// prefix.
pub proof fn lemma_identifier_across_formats(
    p: Programme,
    channels: Seq<crate::xmltv::Channel>,
    o: Options,
)
    ensures
        atom_entry_model(p, channels, o).id == "urn:uuid:"@ + rss_item_model(p, channels, o).guid,
{
}

} // verus!
