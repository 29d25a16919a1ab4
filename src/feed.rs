use vstd::prelude::*;
use crate::notification::{Episode, EpisodeView, LiveItem, LiveItemStatus, LiveItemView};

verus! {

/// A feed item as the parser hands it over.
#[derive(Debug)]
pub struct RawItem {
    pub title: Option<String>,
    pub link: Option<String>,
}

/// A child element of an extension element: its name and its attributes.
#[derive(Debug)]
pub struct RawChild {
    pub name: String,
    pub attrs: Vec<(String, String)>,
}

/// A channel-level extension element under its namespace prefix, with its
/// attributes and its child elements in document order.
#[derive(Debug)]
pub struct RawExtension {
    pub namespace: String,
    pub name: String,
    pub attrs: Vec<(String, String)>,
    pub children: Vec<RawChild>,
}

/// A parsed feed document: the channel title (empty when absent), its items in
/// document order, and its channel-level extension elements.
#[derive(Debug)]
pub struct RawFeed {
    pub title: String,
    pub items: Vec<RawItem>,
    pub extensions: Vec<RawExtension>,
}

/// Why a feed document yields no snapshot, or two snapshots cannot be compared.
#[derive(PartialEq, Eq, Structural, Clone, Copy, Debug)]
pub enum FeedError {
    /// The document has no channel title.
    MalformedFeed,
    /// The two snapshots come from different feeds.
    MismatchedSource,
}

/// Normalized, comparable state of one feed at one poll.
#[derive(PartialEq, Debug)]
pub struct StrippedChannel {
    pub url: String,
    pub title: String,
    pub episodes: Vec<Episode>,
    pub live_items: Vec<LiveItem>,
}

/// Mathematical model of a [`StrippedChannel`].
pub struct ChannelView {
    pub url: Seq<char>,
    pub title: Seq<char>,
    pub episodes: Seq<EpisodeView>,
    pub live_items: Seq<LiveItemView>,
}

pub open spec fn episode_views(s: Seq<Episode>) -> Seq<EpisodeView> {
    s.map_values(|e: Episode| e@)
}

pub open spec fn live_item_views(s: Seq<LiveItem>) -> Seq<LiveItemView> {
    s.map_values(|l: LiveItem| l@)
}

impl View for StrippedChannel {
    type V = ChannelView;

    open spec fn view(&self) -> ChannelView {
        ChannelView {
            url: self.url@,
            title: self.title@,
            episodes: episode_views(self.episodes@),
            live_items: live_item_views(self.live_items@),
        }
    }
}

/// Value of the first attribute named `key` at or after position `i`.
pub open spec fn attr_from(attrs: Seq<(String, String)>, key: Seq<char>, i: int) -> Option<
    Seq<char>,
>
    decreases attrs.len() - i,
{
    if i < 0 || i >= attrs.len() {
        None
    } else if attrs[i].0@ == key {
        Some(attrs[i].1@)
    } else {
        attr_from(attrs, key, i + 1)
    }
}

/// Value of the attribute named `key`, if any.
pub open spec fn attr_of(attrs: Seq<(String, String)>, key: Seq<char>) -> Option<Seq<char>> {
    attr_from(attrs, key, 0)
}

/// Position of the first child named `name` at or after position `i`.
pub open spec fn child_from(children: Seq<RawChild>, name: Seq<char>, i: int) -> Option<int>
    decreases children.len() - i,
{
    if i < 0 || i >= children.len() {
        None
    } else if children[i].name@ == name {
        Some(i)
    } else {
        child_from(children, name, i + 1)
    }
}

/// The `href` of the first `contentLink` child, if any.
pub open spec fn content_link_of(children: Seq<RawChild>) -> Option<Seq<char>> {
    match child_from(children, "contentLink"@, 0) {
        Some(k) => attr_of(children[k].attrs@, "href"@),
        None => None,
    }
}

/// Status named by a status attribute; anything unrecognized counts as ended.
pub open spec fn status_of(s: Seq<char>) -> LiveItemStatus {
    if s == "pending"@ {
        LiveItemStatus::Pending
    } else if s == "live"@ {
        LiveItemStatus::Live
    } else {
        LiveItemStatus::Ended
    }
}

/// Whether an extension element is a live item of the podcast namespace.
pub open spec fn is_live_entry(e: RawExtension) -> bool {
    e.namespace@ == "podcast"@ && e.name@ == "liveItem"@
}

/// The live item an extension element describes: present when it has a
/// status, a start time and a content link.
pub open spec fn live_item_of(e: RawExtension) -> Option<LiveItemView> {
    match (attr_of(e.attrs@, "status"@), attr_of(e.attrs@, "start"@), content_link_of(e.children@)) {
        (Some(s), Some(t), Some(l)) => Some(LiveItemView { status: status_of(s), start_time: t, link: l }),
        _ => None,
    }
}

/// Live items of a feed's extension elements, in document order; elements of
/// other kinds, and incomplete live items, are left out.
pub open spec fn live_items_of(exts: Seq<RawExtension>) -> Seq<LiveItemView>
    decreases exts.len(),
{
    if exts.len() == 0 {
        Seq::empty()
    } else {
        let e = exts.last();
        let rest = live_items_of(exts.drop_last());
        if is_live_entry(e) && live_item_of(e) is Some {
            rest.push(live_item_of(e).unwrap())
        } else {
            rest
        }
    }
}

/// The episode a feed item describes: present when its title is non-empty.
pub open spec fn episode_of(item: RawItem) -> Option<EpisodeView> {
    match item.title {
        Some(t) => if t@.len() > 0 {
            Some(
                EpisodeView {
                    title: t@,
                    link: match item.link {
                        Some(l) => Some(l@),
                        None => None,
                    },
                },
            )
        } else {
            None
        },
        None => None,
    }
}

/// Episodes of a feed's items, in document order; untitled items are left out.
pub open spec fn episodes_of(items: Seq<RawItem>) -> Seq<EpisodeView>
    decreases items.len(),
{
    if items.len() == 0 {
        Seq::empty()
    } else {
        let rest = episodes_of(items.drop_last());
        match episode_of(items.last()) {
            Some(e) => rest.push(e),
            None => rest,
        }
    }
}

/// The snapshot a parsed feed yields under the source key `url`, if it has a title.
pub open spec fn snapshot_of(feed: RawFeed, url: Seq<char>) -> Option<ChannelView> {
    if feed.title@.len() == 0 {
        None
    } else {
        Some(
            ChannelView {
                url,
                title: feed.title@,
                episodes: episodes_of(feed.items@),
                live_items: live_items_of(feed.extensions@),
            },
        )
    }
}

/// Looks up the attribute named `key`.
pub fn find_attr(attrs: &Vec<(String, String)>, key: &String) -> (r: Option<String>)
    ensures
        match r {
            Some(v) => attr_of(attrs@, key@) == Some(v@),
            None => attr_of(attrs@, key@) is None,
        },
{
    let mut i: usize = 0;
    while i < attrs.len()
        invariant
            i <= attrs.len(),
            attr_of(attrs@, key@) == attr_from(attrs@, key@, i as int),
        decreases attrs.len() - i,
    {
        if attrs[i].0 == *key {
            return Some(attrs[i].1.clone());
        }
        i = i + 1;
    }
    None
}

/// Looks up the `href` of the first `contentLink` child.
fn content_link(children: &Vec<RawChild>) -> (r: Option<String>)
    ensures
        match r {
            Some(v) => content_link_of(children@) == Some(v@),
            None => content_link_of(children@) is None,
        },
{
    let name = String::from_str("contentLink");
    let href = String::from_str("href");
    proof {
        reveal_strlit("contentLink");
        reveal_strlit("href");
    }
    let mut i: usize = 0;
    while i < children.len()
        invariant
            i <= children.len(),
            name@ == "contentLink"@,
            href@ == "href"@,
            child_from(children@, "contentLink"@, 0) == child_from(children@, "contentLink"@, i as int),
        decreases children.len() - i,
    {
        if children[i].name == name {
            return find_attr(&children[i].attrs, &href);
        }
        i = i + 1;
    }
    None
}

/// Reads a status attribute, case-sensitively; an unrecognized value is `Ended`.
pub fn parse_status(s: &String) -> (r: LiveItemStatus)
    ensures
        r == status_of(s@),
{
    let pending = String::from_str("pending");
    let live = String::from_str("live");
    if *s == pending {
        LiveItemStatus::Pending
    } else if *s == live {
        LiveItemStatus::Live
    } else {
        LiveItemStatus::Ended
    }
}

impl LiveItem {
    /// Reads a live item from an extension element; `None` when its status,
    /// start time or content link is missing.
    pub fn from_extension(extension: &RawExtension) -> (r: Option<LiveItem>)
        ensures
            match r {
                Some(l) => live_item_of(*extension) == Some(l@),
                None => live_item_of(*extension) is None,
            },
    {
        let status_key = String::from_str("status");
        let start_key = String::from_str("start");
        let status = find_attr(&extension.attrs, &status_key);
        let start = find_attr(&extension.attrs, &start_key);
        let link = content_link(&extension.children);
        match (status, start, link) {
            (Some(s), Some(t), Some(l)) => Some(
                LiveItem { status: parse_status(&s), start_time: t, link: l },
            ),
            _ => None,
        }
    }
}

/// Whether an extension element is a live item of the podcast namespace.
fn is_live_extension(e: &RawExtension) -> (r: bool)
    ensures
        r == is_live_entry(*e),
{
    let ns = String::from_str("podcast");
    let name = String::from_str("liveItem");
    e.namespace == ns && e.name == name
}

/// The live items among a feed's extension elements, in document order.
pub fn get_live_items(extensions: &Vec<RawExtension>) -> (r: Vec<LiveItem>)
    ensures
        live_item_views(r@) == live_items_of(extensions@),
{
    let mut out: Vec<LiveItem> = Vec::new();
    let mut i: usize = 0;
    while i < extensions.len()
        invariant
            i <= extensions.len(),
            live_item_views(out@) == live_items_of(extensions@.subrange(0, i as int)),
        decreases extensions.len() - i,
    {
        let ghost before = out@;
        assert(extensions@.subrange(0, i + 1).drop_last() =~= extensions@.subrange(0, i as int));
        if is_live_extension(&extensions[i]) {
            match LiveItem::from_extension(&extensions[i]) {
                Some(l) => {
                    out.push(l);
                    assert(live_item_views(out@) =~= live_item_views(before).push(out@.last()@));
                },
                None => {},
            }
        }
        i = i + 1;
    }
    assert(extensions@.subrange(0, extensions.len() as int) =~= extensions@);
    out
}

impl Episode {
    /// Reads an episode from a feed item; `None` when its title is absent or empty.
    pub fn from_item(item: &RawItem) -> (r: Option<Episode>)
        ensures
            match r {
                Some(e) => episode_of(*item) == Some(e@),
                None => episode_of(*item) is None,
            },
    {
        match &item.title {
            Some(t) => {
                if t.as_str().unicode_len() > 0 {
                    let link = match &item.link {
                        Some(l) => Some(l.clone()),
                        None => None,
                    };
                    Some(Episode { title: t.clone(), link })
                } else {
                    None
                }
            },
            None => None,
        }
    }
}

/// The episodes of a feed's items, in document order.
pub fn get_episodes(items: &Vec<RawItem>) -> (r: Vec<Episode>)
    ensures
        episode_views(r@) == episodes_of(items@),
{
    let mut out: Vec<Episode> = Vec::new();
    let mut i: usize = 0;
    while i < items.len()
        invariant
            i <= items.len(),
            episode_views(out@) == episodes_of(items@.subrange(0, i as int)),
        decreases items.len() - i,
    {
        let ghost before = out@;
        assert(items@.subrange(0, i + 1).drop_last() =~= items@.subrange(0, i as int));
        match Episode::from_item(&items[i]) {
            Some(e) => {
                out.push(e);
                assert(episode_views(out@) =~= episode_views(before).push(out@.last()@));
            },
            None => {},
        }
        i = i + 1;
    }
    assert(items@.subrange(0, items.len() as int) =~= items@);
    out
}

impl StrippedChannel {
    /// Builds the snapshot of a parsed feed under the source key `feed_url`;
    /// fails with `MalformedFeed` exactly when the feed has no title.
    pub fn from_channel(channel: &RawFeed, feed_url: &str) -> (r: Result<StrippedChannel, FeedError>)
        ensures
            match r {
                Ok(c) => snapshot_of(*channel, feed_url@) == Some(c@),
                Err(e) => e == FeedError::MalformedFeed && snapshot_of(*channel, feed_url@) is None,
            },
    {
        if channel.title.as_str().unicode_len() == 0 {
            return Err(FeedError::MalformedFeed);
        }
        let episodes = get_episodes(&channel.items);
        let live_items = get_live_items(&channel.extensions);
        Ok(
            StrippedChannel {
                url: String::from_str(feed_url),
                title: channel.title.clone(),
                episodes,
                live_items,
            },
        )
    }
}

/// Whether a status attribute names none of the known statuses.
pub open spec fn is_unrecognized_status(s: Seq<char>) -> bool {
    s != "pending"@ && s != "live"@ && s != "ended"@
}

/// Whether an extension element is a live item whose status attribute is
/// present but unrecognized.
pub open spec fn has_unrecognized_status(e: RawExtension) -> bool {
    is_live_entry(e) && match attr_of(e.attrs@, "status"@) {
        Some(s) => is_unrecognized_status(s),
        None => false,
    }
}

/// Positions, in increasing order, of the items that yield no episode.
pub open spec fn untitled_positions(items: Seq<RawItem>) -> Seq<usize>
    decreases items.len(),
{
    if items.len() == 0 {
        Seq::empty()
    } else {
        let rest = untitled_positions(items.drop_last());
        if episode_of(items.last()) is None {
            rest.push((items.len() - 1) as usize)
        } else {
            rest
        }
    }
}

/// Positions, in increasing order, of the live entries with an unrecognized status.
pub open spec fn unrecognized_positions(exts: Seq<RawExtension>) -> Seq<usize>
    decreases exts.len(),
{
    if exts.len() == 0 {
        Seq::empty()
    } else {
        let rest = unrecognized_positions(exts.drop_last());
        if has_unrecognized_status(exts.last()) {
            rest.push((exts.len() - 1) as usize)
        } else {
            rest
        }
    }
}

/// What building a snapshot passed over: items dropped for want of a title,
/// and live entries whose status was read as ended for want of a known value.
#[derive(PartialEq, Eq, Debug)]
pub struct FeedWarnings {
    pub untitled_items: Vec<usize>,
    pub unrecognized_statuses: Vec<usize>,
}

/// Whether a status attribute names one of the known statuses.
fn is_known_status(s: &String) -> (r: bool)
    ensures
        r == !is_unrecognized_status(s@),
{
    let pending = String::from_str("pending");
    let live = String::from_str("live");
    let ended = String::from_str("ended");
    *s == pending || *s == live || *s == ended
}

/// Lists what building the snapshot of `feed` passes over, by position:
/// untitled items among `feed.items`, and live entries among
/// `feed.extensions` whose status is not recognized.
pub fn feed_warnings(feed: &RawFeed) -> (r: FeedWarnings)
    ensures
        r.untitled_items@ == untitled_positions(feed.items@),
        r.unrecognized_statuses@ == unrecognized_positions(feed.extensions@),
{
    let mut untitled: Vec<usize> = Vec::new();
    let mut i: usize = 0;
    while i < feed.items.len()
        invariant
            i <= feed.items.len(),
            untitled@ == untitled_positions(feed.items@.subrange(0, i as int)),
        decreases feed.items.len() - i,
    {
        assert(feed.items@.subrange(0, i + 1).drop_last() =~= feed.items@.subrange(0, i as int));
        let item = &feed.items[i];
        let titled = match &item.title {
            Some(t) => t.as_str().unicode_len() > 0,
            None => false,
        };
        if !titled {
            untitled.push(i);
        }
        i = i + 1;
    }
    assert(feed.items@.subrange(0, feed.items.len() as int) =~= feed.items@);
    let status_key = String::from_str("status");
    let mut unrecognized: Vec<usize> = Vec::new();
    let mut j: usize = 0;
    while j < feed.extensions.len()
        invariant
            j <= feed.extensions.len(),
            status_key@ == "status"@,
            unrecognized@ == unrecognized_positions(feed.extensions@.subrange(0, j as int)),
        decreases feed.extensions.len() - j,
    {
        assert(feed.extensions@.subrange(0, j + 1).drop_last() =~= feed.extensions@.subrange(
            0,
            j as int,
        ));
        let e = &feed.extensions[j];
        if is_live_extension(e) {
            match find_attr(&e.attrs, &status_key) {
                Some(s) => {
                    if !is_known_status(&s) {
                        unrecognized.push(j);
                    }
                },
                None => {},
            }
        }
        j = j + 1;
    }
    assert(feed.extensions@.subrange(0, feed.extensions.len() as int) =~= feed.extensions@);
    FeedWarnings { untitled_items: untitled, unrecognized_statuses: unrecognized }
}

} // verus!
