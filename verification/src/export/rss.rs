//! RSS 2.0 export: the feed model and the visitor that accumulates it.

use vstd::prelude::*;
use vstd::pervasive::unreached;

use crate::datetime::{rfc2822_of, rfc2822_utc};
use crate::error::Error;
use crate::export::{
    effective_language, identifier_model, opt_string_view, parse_fail_string,
    programme_description, programme_description_model, programme_identifier, programme_times,
    programme_times_model, resolved_lang, Options, Visitor, DEFAULT_FEED_CHANNEL_DESCRIPTION,
    DEFAULT_FEED_CHANNEL_TITLE,
};
use crate::xmltv::{
    find_value, find_value_model, first_url, first_url_model, lang_view, Programme, Tv,
};

verus! {

/// The abstract value of an RSS item.
#[verifier::ext_equal]
pub struct ItemModel {
    pub title: Seq<char>,
    pub link: Option<Seq<char>>,
    pub description: Seq<char>,
    pub guid: Seq<char>,
    pub pub_date: Seq<char>,
}

/// The abstract value of an RSS channel.
#[verifier::ext_equal]
pub struct ChannelModel {
    pub title: Seq<char>,
    pub link: Seq<char>,
    pub description: Seq<char>,
    pub language: Option<Seq<char>>,
    pub pub_date: Option<Seq<char>>,
    pub last_build_date: Option<Seq<char>>,
    pub items: Seq<ItemModel>,
}

/// One item of the output feed, derived from one programme.
#[derive(Debug, Clone, PartialEq, Eq)]
pub struct Item {
    pub title: String,
    pub link: Option<String>,
    pub description: String,
    pub guid: String,
    pub pub_date: String,
}

impl View for Item {
    type V = ItemModel;

    open spec fn view(&self) -> ItemModel {
        ItemModel {
            title: self.title@,
            link: opt_string_view(self.link),
            description: self.description@,
            guid: self.guid@,
            pub_date: self.pub_date@,
        }
    }
}

/// The output feed: an RSS channel.
#[derive(Debug, Clone, PartialEq, Eq)]
pub struct Channel {
    pub title: String,
    pub link: String,
    pub description: String,
    pub language: Option<String>,
    pub pub_date: Option<String>,
    pub last_build_date: Option<String>,
    pub items: Vec<Item>,
}

impl View for Channel {
    type V = ChannelModel;

    open spec fn view(&self) -> ChannelModel {
        ChannelModel {
            title: self.title@,
            link: self.link@,
            description: self.description@,
            language: opt_string_view(self.language),
            pub_date: opt_string_view(self.pub_date),
            last_build_date: opt_string_view(self.last_build_date),
            items: items_model(self.items@),
        }
    }
}

/// The abstract values of a sequence of items.
pub open spec fn items_model(items: Seq<Item>) -> Seq<ItemModel> {
    items.map_values(|it: Item| it@)
}

/// The item derived from a programme, defined when its times resolve.
pub open spec fn rss_item_model(
    p: Programme,
    channels: Seq<crate::xmltv::Channel>,
    o: Options,
) -> ItemModel {
    let times = programme_times_model(p, o).unwrap();
    ItemModel {
        title: find_value_model(p.titles@, resolved_lang(o)),
        link: first_url_model(p.urls@),
        description: programme_description_model(p, channels, o, times.0, times.1),
        guid: identifier_model(p.channel@, times.0),
        pub_date: rfc2822_of(times.0),
    }
}

/// The feed title after defaulting: the caller's title, or the default when
/// it is empty.
pub open spec fn defaulted_title(title: Seq<char>) -> Seq<char> {
    if title.len() == 0 {
        DEFAULT_FEED_CHANNEL_TITLE@
    } else {
        title
    }
}

/// The whole output feed as a function of the inputs, defined when every
/// programme's times resolve.
pub open spec fn rss_feed_model(
    title: Seq<char>,
    link: Seq<char>,
    description: Option<Seq<char>>,
    pub_date: Option<Seq<char>>,
    last_build_date: Option<Seq<char>>,
    o: Options,
    listing: Tv,
) -> ChannelModel {
    ChannelModel {
        title: defaulted_title(title),
        link: link,
        description: match description {
            Some(d) => d,
            None => DEFAULT_FEED_CHANNEL_DESCRIPTION@,
        },
        language: opt_string_view(o.language),
        pub_date: pub_date,
        last_build_date: last_build_date,
        items: Seq::new(
            listing.programmes@.len(),
            |i: int| rss_item_model(listing.programmes@[i], listing.channels@, o),
        ),
    }
}

/// RSS channel/feed export visitor.
pub struct Rss<'a> {
    pub title: &'a str,
    pub link: &'a str,
    pub description: Option<&'a str>,
    pub pub_date: Option<String>,
    pub last_build_date: Option<String>,
    pub options: &'a Options,
    pub xmltv_channels: &'a Vec<crate::xmltv::Channel>,
    pub channel: Channel,
    pub items: Vec<Item>,
}

impl<'a> Rss<'a> {
    /// A fresh visitor; an empty caller title is replaced by the default.
    pub fn new(
        title: &'a str,
        link: &'a str,
        description: Option<&'a str>,
        pub_date: Option<String>,
        last_build_date: Option<String>,
        options: &'a Options,
        xmltv_channels: &'a Vec<crate::xmltv::Channel>,
    ) -> (r: Self)
        ensures
            r.title@ == defaulted_title(title@),
            r.link@ == link@,
            lang_view(r.description) == lang_view(description),
            opt_string_view(r.pub_date) == opt_string_view(pub_date),
            opt_string_view(r.last_build_date) == opt_string_view(last_build_date),
            r.options == options,
            r.xmltv_channels == xmltv_channels,
            r.channel@ == empty_channel_model(),
            r.items@ == Seq::<Item>::empty(),
    {
        let title = if !title.is_empty() {
            title
        } else {
            DEFAULT_FEED_CHANNEL_TITLE
        };
        let r = Rss {
            title,
            link,
            description,
            pub_date,
            last_build_date,
            options,
            xmltv_channels,
            channel: Channel {
                title: String::new(),
                link: String::new(),
                description: String::new(),
                language: None,
                pub_date: None,
                last_build_date: None,
                items: Vec::new(),
            },
            items: Vec::new(),
        };
        proof {
            assert(r.channel@ =~= empty_channel_model());
        }
        r
    }

    /// Initializes the feed header: title, link, description, and the
    /// optional language and date metadata, which are only ever set, never
    /// cleared.
    pub fn visit_tv(&mut self, listing: &Tv) -> (r: Result<(), Error>)
        ensures
            r is Ok,
            final(self).channel.title@ == old(self).title@,
            final(self).channel.link@ == old(self).link@,
            final(self).channel.description@ == match old(self).description {
                Some(d) => d@,
                None => DEFAULT_FEED_CHANNEL_DESCRIPTION@,
            },
            opt_string_view(final(self).channel.language) == match old(self).options.language {
                Some(l) => Some(l@),
                None => opt_string_view(old(self).channel.language),
            },
            opt_string_view(final(self).channel.pub_date) == match old(self).pub_date {
                Some(d) => Some(d@),
                None => opt_string_view(old(self).channel.pub_date),
            },
            opt_string_view(final(self).channel.last_build_date) == match old(
                self,
            ).last_build_date {
                Some(d) => Some(d@),
                None => opt_string_view(old(self).channel.last_build_date),
            },
            final(self).channel.items == old(self).channel.items,
            final(self).items == old(self).items,
            final(self).title == old(self).title,
            final(self).link == old(self).link,
            final(self).description == old(self).description,
            final(self).pub_date == old(self).pub_date,
            final(self).last_build_date == old(self).last_build_date,
            final(self).options == old(self).options,
            final(self).xmltv_channels == old(self).xmltv_channels,
    {
        let _ = listing;
        self.channel.title = self.title.to_owned();
        self.channel.link = self.link.to_owned();
        self.channel.description = match self.description {
            Some(d) => d.to_owned(),
            None => DEFAULT_FEED_CHANNEL_DESCRIPTION.to_owned(),
        };
        match &self.options.language {
            Some(l) => {
                self.channel.language = Some(l.clone());
            },
            None => (),
        }
        match &self.pub_date {
            Some(d) => {
                self.channel.pub_date = Some(d.clone());
            },
            None => (),
        }
        match &self.last_build_date {
            Some(d) => {
                self.channel.last_build_date = Some(d.clone());
            },
            None => (),
        }
        Ok(())
    }

    /// Resets the scratch item list.
    pub fn visit_programmes_start(&mut self) -> (r: Result<(), Error>)
        ensures
            r is Ok,
            final(self).items@ == Seq::<Item>::empty(),
            final(self).channel == old(self).channel,
            final(self).title == old(self).title,
            final(self).link == old(self).link,
            final(self).description == old(self).description,
            final(self).pub_date == old(self).pub_date,
            final(self).last_build_date == old(self).last_build_date,
            final(self).options == old(self).options,
            final(self).xmltv_channels == old(self).xmltv_channels,
    {
        self.items = Vec::new();
        Ok(())
    }

    /// Derives one item from the programme and appends it, or fails the
    /// whole export when a programme time parses with neither format.
    pub fn visit_programme(&mut self, programme: &Programme) -> (r: Result<(), Error>)
        ensures
            r is Ok <==> programme_times_model(*programme, *old(self).options) is Some,
            r is Ok ==> items_model(final(self).items@) == items_model(old(self).items@).push(
                rss_item_model(*programme, old(self).xmltv_channels@, *old(self).options),
            ),
            r matches Err(e) ==> e matches Error::Parse(m) && m@ == parse_fail_string(
                *programme,
                *old(self).options,
            ),
            r is Err ==> final(self).items == old(self).items,
            final(self).channel == old(self).channel,
            final(self).title == old(self).title,
            final(self).link == old(self).link,
            final(self).description == old(self).description,
            final(self).pub_date == old(self).pub_date,
            final(self).last_build_date == old(self).last_build_date,
            final(self).options == old(self).options,
            final(self).xmltv_channels == old(self).xmltv_channels,
    {
        let language = effective_language(self.options);
        let times = match programme_times(programme, self.options) {
            Ok(t) => t,
            Err(e) => {
                return Err(e);
            },
        };
        let start = times.0;
        let stop = times.1;
        let title = find_value(&programme.titles, language);
        let link = first_url(&programme.urls);
        let description = programme_description(
            programme,
            self.xmltv_channels,
            self.options,
            language,
            title,
            start,
            stop,
        );
        let guid = programme_identifier(programme.channel.as_str(), start);
        let pub_date = rfc2822_utc(start.seconds);
        let item = Item { title: title.to_owned(), link, description, guid, pub_date };
        proof {
            assert(item@ =~= rss_item_model(*programme, self.xmltv_channels@, *self.options));
        }
        self.items.push(item);
        proof {
            assert(items_model(final(self).items@) =~= items_model(old(self).items@).push(
                rss_item_model(*programme, old(self).xmltv_channels@, *old(self).options),
            ));
        }
        Ok(())
    }

    /// Commits the accumulated items to the feed in traversal order, then
    /// clears the scratch list.
    pub fn visit_programmes_end(&mut self) -> (r: Result<(), Error>)
        ensures
            r is Ok,
            items_model(final(self).channel.items@) == items_model(old(self).items@),
            final(self).channel.title == old(self).channel.title,
            final(self).channel.link == old(self).channel.link,
            final(self).channel.description == old(self).channel.description,
            final(self).channel.language == old(self).channel.language,
            final(self).channel.pub_date == old(self).channel.pub_date,
            final(self).channel.last_build_date == old(self).channel.last_build_date,
            final(self).items@ == Seq::<Item>::empty(),
            final(self).title == old(self).title,
            final(self).link == old(self).link,
            final(self).description == old(self).description,
            final(self).pub_date == old(self).pub_date,
            final(self).last_build_date == old(self).last_build_date,
            final(self).options == old(self).options,
            final(self).xmltv_channels == old(self).xmltv_channels,
    {
        let mut items: Vec<Item> = Vec::new();
        std::mem::swap(&mut items, &mut self.items);
        self.channel.items = items;
        Ok(())
    }

    /// Yields the finished feed.
    pub fn result(self) -> (r: Result<Channel, Error>)
        ensures
            r matches Ok(c) && c == self.channel,
    {
        Ok(self.channel)
    }
}

/// The model of a feed whose header was not filled in yet.
pub open spec fn empty_channel_model() -> ChannelModel {
    ChannelModel {
        title: Seq::<char>::empty(),
        link: Seq::<char>::empty(),
        description: Seq::<char>::empty(),
        language: None,
        pub_date: None,
        last_build_date: None,
        items: Seq::<ItemModel>::empty(),
    }
}

impl Visitor for Rss<'_> {
    type Output = Channel;

    type Entry = ItemModel;

    open spec fn accepts(&self, p: Programme) -> bool {
        programme_times_model(p, *self.options) is Some
    }

    open spec fn entry_of(&self, p: Programme) -> ItemModel {
        rss_item_model(p, self.xmltv_channels@, *self.options)
    }

    open spec fn entries(&self) -> Seq<ItemModel> {
        items_model(self.items@)
    }

    open spec fn committed(&self) -> Seq<ItemModel> {
        items_model(self.channel.items@)
    }

    open spec fn output_entries(out: Channel) -> Seq<ItemModel> {
        items_model(out.items@)
    }

    fn visit_tv(&mut self, listing: &Tv) -> Result<(), Error> {
        Rss::visit_tv(self, listing)
    }

    fn visit_programmes_start(&mut self) -> Result<(), Error> {
        Rss::visit_programmes_start(self)
    }

    fn visit_programme(&mut self, programme: &Programme) -> Result<(), Error> {
        Rss::visit_programme(self, programme)
    }

    fn visit_programmes_end(&mut self) -> Result<(), Error> {
        Rss::visit_programmes_end(self)
    }

    fn result(self) -> Result<Channel, Error> {
        Rss::result(self)
    }
}

/// Whether every programme of the listing has resolvable times under the
/// options.
pub open spec fn all_times_resolve(listing: Tv, o: Options) -> bool {
    forall|i: int|
        0 <= i < listing.programmes@.len() ==> programme_times_model(
            #[trigger] listing.programmes@[i],
            o,
        ) is Some
}

/// Exports an XMLTV TV listing to an RSS channel/feed: succeeds exactly when
/// every programme's times resolve, and then yields the feed that
/// `rss_feed_model` describes; the first unresolvable programme otherwise
/// aborts the whole export with its offending input string.
pub fn export_to_rss(
    title: &str,
    link: &str,
    description: Option<&str>,
    pub_date: Option<String>,
    last_build_date: Option<String>,
    options: &Options,
    listing: &Tv,
) -> (r: Result<Channel, Error>)
    ensures
        r is Ok <==> all_times_resolve(*listing, *options),
        r matches Ok(c) ==> c@ == rss_feed_model(
            title@,
            link@,
            lang_view(description),
            opt_string_view(pub_date),
            opt_string_view(last_build_date),
            *options,
            *listing,
        ),
        r matches Err(e) ==> exists|i: int|
            {
                &&& 0 <= i < listing.programmes@.len()
                &&& programme_times_model(#[trigger] listing.programmes@[i], *options) is None
                &&& forall|k: int|
                    0 <= k < i ==> programme_times_model(
                        #[trigger] listing.programmes@[k],
                        *options,
                    ) is Some
                &&& e matches Error::Parse(m) && m@ == parse_fail_string(
                    listing.programmes@[i],
                    *options,
                )
            },
{
    let ghost title_view = title@;
    let ghost pub_date_view = opt_string_view(pub_date);
    let ghost last_build_date_view = opt_string_view(last_build_date);
    let mut visitor = Rss::new(
        title,
        link,
        description,
        pub_date,
        last_build_date,
        options,
        &listing.channels,
    );
    match visitor.visit_tv(listing) {
        Ok(()) => (),
        Err(_) => {
            return unreached();
        },
    }
    match visitor.visit_programmes_start() {
        Ok(()) => (),
        Err(_) => {
            return unreached();
        },
    }
    let ghost header = visitor.channel;
    let n = listing.programmes.len();
    let mut i: usize = 0;
    proof {
        assert(items_model(visitor.items@) =~= Seq::<ItemModel>::empty());
    }
    while i < n
        invariant
            n == listing.programmes@.len(),
            0 <= i <= n,
            forall|k: int|
                0 <= k < i ==> programme_times_model(
                    #[trigger] listing.programmes@[k],
                    *options,
                ) is Some,
            items_model(visitor.items@) == Seq::new(
                i as nat,
                |k: int| rss_item_model(listing.programmes@[k], listing.channels@, *options),
            ),
            visitor.options == options,
            visitor.xmltv_channels == &listing.channels,
            visitor.channel == header,
        decreases n - i,
    {
        match visitor.visit_programme(&listing.programmes[i]) {
            Ok(()) => (),
            Err(e) => {
                proof {
                    assert(programme_times_model(listing.programmes@[i as int], *options)
                        is None);
                }
                return Err(e);
            },
        }
        proof {
            assert(items_model(visitor.items@) =~= Seq::new(
                (i + 1) as nat,
                |k: int| rss_item_model(listing.programmes@[k], listing.channels@, *options),
            ));
        }
        i += 1;
    }
    match visitor.visit_programmes_end() {
        Ok(()) => (),
        Err(_) => {
            return unreached();
        },
    }
    match visitor.result() {
        Ok(c) => {
            proof {
                assert(c@ =~= rss_feed_model(
                    title_view,
                    link@,
                    lang_view(description),
                    pub_date_view,
                    last_build_date_view,
                    *options,
                    *listing,
                ));
            }
            Ok(c)
        },
        Err(_) => unreached(),
    }
}

/// Entry order is preserved: the output feed has exactly one item per
/// programme, in document order, each derived from the programme at the same
/// position.
pub proof fn lemma_rss_entry_order(
    c: ChannelModel,
    title: Seq<char>,
    link: Seq<char>,
    description: Option<Seq<char>>,
    pub_date: Option<Seq<char>>,
    last_build_date: Option<Seq<char>>,
    o: Options,
    listing: Tv,
)
    requires
        c == rss_feed_model(title, link, description, pub_date, last_build_date, o, listing),
    ensures
        c.items.len() == listing.programmes@.len(),
        forall|i: int|
            0 <= i < listing.programmes@.len() ==> c.items[i] == rss_item_model(
                #[trigger] listing.programmes@[i],
                listing.channels@,
                o,
            ),
{
}

/// The export is deterministic: two runs over the same listing, options and
/// externally supplied dates yield the same feed.
pub proof fn lemma_rss_export_deterministic(
    c1: ChannelModel,
    c2: ChannelModel,
    title: Seq<char>,
    link: Seq<char>,
    description: Option<Seq<char>>,
    pub_date: Option<Seq<char>>,
    last_build_date: Option<Seq<char>>,
    o: Options,
    listing: Tv,
)
    requires
        c1 == rss_feed_model(title, link, description, pub_date, last_build_date, o, listing),
        c2 == rss_feed_model(title, link, description, pub_date, last_build_date, o, listing),
    ensures
        c1 == c2,
{
}

} // verus!
