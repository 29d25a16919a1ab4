use vstd::prelude::*;

verus! {

/// Live-stream state announced by a feed's live item.
#[derive(PartialEq, Eq, Structural, Clone, Copy, Debug)]
pub enum LiveItemStatus {
    Pending,
    Live,
    Ended,
}

/// One published episode: a non-empty title and an optional link.
#[derive(PartialEq, Debug)]
pub struct Episode {
    pub title: String,
    pub link: Option<String>,
}

/// Mathematical model of an [`Episode`].
pub struct EpisodeView {
    pub title: Seq<char>,
    pub link: Option<Seq<char>>,
}

impl View for Episode {
    type V = EpisodeView;

    open spec fn view(&self) -> EpisodeView {
        EpisodeView {
            title: self.title@,
            link: match self.link {
                Some(l) => Some(l@),
                None => None,
            },
        }
    }
}

impl Clone for Episode {
    fn clone(&self) -> (r: Self)
        ensures
            r == *self,
    {
        let link = match &self.link {
            Some(l) => Some(l.clone()),
            None => None,
        };
        Episode { title: self.title.clone(), link }
    }
}

/// One entry of a feed's live-streaming extension.
#[derive(PartialEq, Debug)]
pub struct LiveItem {
    pub status: LiveItemStatus,
    pub start_time: String,
    pub link: String,
}

/// Mathematical model of a [`LiveItem`].
pub struct LiveItemView {
    pub status: LiveItemStatus,
    pub start_time: Seq<char>,
    pub link: Seq<char>,
}

impl View for LiveItem {
    type V = LiveItemView;

    open spec fn view(&self) -> LiveItemView {
        LiveItemView { status: self.status, start_time: self.start_time@, link: self.link@ }
    }
}

impl Clone for LiveItem {
    fn clone(&self) -> (r: Self)
        ensures
            r == *self,
    {
        LiveItem { status: self.status, start_time: self.start_time.clone(), link: self.link.clone() }
    }
}

/// The single change that a comparison of two snapshots reports.
#[derive(PartialEq, Debug)]
pub enum NewContent {
    NewEpisode(Episode),
    NewLiveItem(LiveItem),
}

/// Mathematical model of a [`NewContent`].
pub enum NewContentView {
    NewEpisode(EpisodeView),
    NewLiveItem(LiveItemView),
}

impl View for NewContent {
    type V = NewContentView;

    open spec fn view(&self) -> NewContentView {
        match self {
            NewContent::NewEpisode(e) => NewContentView::NewEpisode(e@),
            NewContent::NewLiveItem(l) => NewContentView::NewLiveItem(l@),
        }
    }
}

impl Clone for NewContent {
    fn clone(&self) -> (r: Self)
        ensures
            r == *self,
    {
        match self {
            NewContent::NewEpisode(e) => NewContent::NewEpisode(e.clone()),
            NewContent::NewLiveItem(l) => NewContent::NewLiveItem(l.clone()),
        }
    }
}

/// The separator and prefix of the line that carries a link.
pub open spec fn watch_line(link: Seq<char>) -> Seq<char> {
    "\nWatch at "@ + link
}

/// First line of a new-episode announcement.
pub open spec fn episode_headline(podcast: Seq<char>, title: Seq<char>) -> Seq<char> {
    "New episode: "@ + podcast + " uploaded '"@ + title + "'"@
}

/// Text announcing a new episode.
pub open spec fn episode_message(podcast: Seq<char>, ep: EpisodeView) -> Seq<char> {
    match ep.link {
        Some(l) => episode_headline(podcast, ep.title) + watch_line(l),
        None => episode_headline(podcast, ep.title),
    }
}

/// Text announcing a live item in its current status.
pub open spec fn live_message(podcast: Seq<char>, item: LiveItemView) -> Seq<char> {
    match item.status {
        LiveItemStatus::Pending => "Live stream: "@ + podcast + " will be live at "@
            + item.start_time + watch_line(item.link),
        LiveItemStatus::Live => "Live stream: "@ + podcast + " is now live!"@ + watch_line(
            item.link,
        ),
        LiveItemStatus::Ended => "Live stream: "@ + podcast + " stopped streaming"@,
    }
}

/// Text announcing a change event.
pub open spec fn message_of(event: NewContentView, podcast: Seq<char>) -> Seq<char> {
    match event {
        NewContentView::NewEpisode(e) => episode_message(podcast, e),
        NewContentView::NewLiveItem(l) => live_message(podcast, l),
    }
}

/// A value that can be announced under a podcast's name.
pub trait ToNotification {
    spec fn notification_spec(&self, podcast_name: Seq<char>) -> Seq<char>;

    fn to_notification(&self, podcast_name: String) -> (r: String)
        ensures
            r@ == self.notification_spec(podcast_name@),
    ;
}

impl ToNotification for Episode {
    open spec fn notification_spec(&self, podcast_name: Seq<char>) -> Seq<char> {
        episode_message(podcast_name, self@)
    }

    fn to_notification(&self, podcast_name: String) -> (r: String) {
        let mut r = String::from_str("New episode: ");
        r.append(podcast_name.as_str());
        r.append(" uploaded '");
        r.append(self.title.as_str());
        r.append("'");
        match &self.link {
            Some(l) => {
                r.append("\nWatch at ");
                r.append(l.as_str());
                assert(r@ =~= episode_headline(podcast_name@, self.title@) + watch_line(l@));
            },
            None => {
                assert(r@ =~= episode_headline(podcast_name@, self.title@));
            },
        }
        r
    }
}

impl ToNotification for LiveItem {
    open spec fn notification_spec(&self, podcast_name: Seq<char>) -> Seq<char> {
        live_message(podcast_name, self@)
    }

    fn to_notification(&self, podcast_name: String) -> (r: String) {
        match self.status {
            LiveItemStatus::Pending => pending_notification(
                &podcast_name,
                &self.start_time,
                &self.link,
            ),
            LiveItemStatus::Live => live_notification(&podcast_name, &self.link),
            LiveItemStatus::Ended => ended_notification(&podcast_name),
        }
    }
}

fn pending_notification(name: &String, start_time: &String, link: &String) -> (r: String)
    ensures
        r@ == "Live stream: "@ + name@ + " will be live at "@ + start_time@ + watch_line(link@),
{
    let mut r = String::from_str("Live stream: ");
    r.append(name.as_str());
    r.append(" will be live at ");
    r.append(start_time.as_str());
    r.append("\nWatch at ");
    r.append(link.as_str());
    assert(r@ =~= "Live stream: "@ + name@ + " will be live at "@ + start_time@ + watch_line(
        link@,
    ));
    r
}

fn live_notification(name: &String, link: &String) -> (r: String)
    ensures
        r@ == "Live stream: "@ + name@ + " is now live!"@ + watch_line(link@),
{
    let mut r = String::from_str("Live stream: ");
    r.append(name.as_str());
    r.append(" is now live!");
    r.append("\nWatch at ");
    r.append(link.as_str());
    assert(r@ =~= "Live stream: "@ + name@ + " is now live!"@ + watch_line(link@));
    r
}

fn ended_notification(name: &String) -> (r: String)
    ensures
        r@ == "Live stream: "@ + name@ + " stopped streaming"@,
{
    let mut r = String::from_str("Live stream: ");
    r.append(name.as_str());
    r.append(" stopped streaming");
    r
}

/// Renders the announcement of `event` for the podcast called `podcast_title`.
pub fn render(event: &NewContent, podcast_title: String) -> (r: String)
    ensures
        r@ == message_of(event@, podcast_title@),
{
    match event {
        NewContent::NewEpisode(e) => e.to_notification(podcast_title),
        NewContent::NewLiveItem(l) => l.to_notification(podcast_title),
    }
}

/// Rendering depends on the event and the podcast title alone: equal inputs
/// give equal text.
pub proof fn lemma_render_deterministic(
    e1: NewContentView,
    e2: NewContentView,
    t1: Seq<char>,
    t2: Seq<char>,
)
    requires
        e1 == e2,
        t1 == t2,
    ensures
        message_of(e1, t1) == message_of(e2, t2),
{
}

/// An episode with a link is announced with the link line at the end; one
/// without a link is announced by its headline alone, which is a single line
/// whenever the podcast name and the episode title hold no line break.
pub proof fn lemma_episode_link_line(podcast: Seq<char>, ep: EpisodeView)
    ensures
        ep.link is Some ==> episode_message(podcast, ep) == episode_headline(podcast, ep.title)
            + watch_line(ep.link.unwrap()),
        ep.link is None ==> episode_message(podcast, ep) == episode_headline(podcast, ep.title),
        ep.link is None && !podcast.contains('\n') && !ep.title.contains('\n') ==> !episode_message(
            podcast,
            ep,
        ).contains('\n'),
{
    if ep.link is None && !podcast.contains('\n') && !ep.title.contains('\n') {
        reveal_strlit("New episode: ");
        reveal_strlit(" uploaded '");
        reveal_strlit("'");
        let a = "New episode: "@;
        let b = " uploaded '"@;
        let c = "'"@;
        let m = episode_headline(podcast, ep.title);
        assert(m =~= a + podcast + b + ep.title + c);
        assert forall|k: int| 0 <= k < m.len() implies m[k] != '\n' by {
            if k < a.len() {
            } else if k < a.len() + podcast.len() {
                assert(m[k] == podcast[k - a.len()]);
            } else if k < a.len() + podcast.len() + b.len() {
            } else if k < a.len() + podcast.len() + b.len() + ep.title.len() {
                assert(m[k] == ep.title[k - a.len() - podcast.len() - b.len()]);
            } else {
            }
        }
    }
}

} // verus!
