use vstd::prelude::*;
use crate::detect::{detect, detect_spec};
use crate::feed::{ChannelView, FeedError, RawFeed, StrippedChannel, snapshot_of};
use crate::notification::{message_of, render};

verus! {

/// Per-feed polling state: the feed's source key and, once the first poll
/// has been taken, the snapshot of the latest poll.
pub struct FeedMonitor {
    pub url: String,
    pub baseline: Option<StrippedChannel>,
}

/// The announcement owed when a feed moves from `prev` to `cur`.
pub open spec fn announcement(prev: ChannelView, cur: ChannelView) -> Option<Seq<char>> {
    match detect_spec(prev, cur) {
        Some(e) => Some(message_of(e, cur.title)),
        None => None,
    }
}

/// The view of an optional message.
pub open spec fn message_view(m: Option<String>) -> Option<Seq<char>> {
    match m {
        Some(s) => Some(s@),
        None => None,
    }
}

impl FeedMonitor {
    /// The baseline, when there is one, belongs to the monitored feed.
    pub open spec fn wf(&self) -> bool {
        self.baseline is Some ==> self.baseline.unwrap().url@ == self.url@
    }

    /// A monitor for the feed with source key `url` that has seen no poll yet.
    pub fn new(url: String) -> (r: FeedMonitor)
        ensures
            r.wf(),
            r.url@ == url@,
            r.baseline is None,
    {
        FeedMonitor { url, baseline: None }
    }

    /// Whether a first snapshot has been taken.
    pub fn is_baselined(&self) -> (r: bool)
        ensures
            r == self.baseline is Some,
    {
        self.baseline.is_some()
    }

    /// Takes the snapshot of one poll. The first one only becomes the
    /// baseline; each later one is compared with the baseline, yielding the
    /// announcement of the change found, if any, and then replaces it. A
    /// snapshot of another feed is refused and leaves the monitor unchanged.
    pub fn observe(&mut self, current: StrippedChannel) -> (r: Result<Option<String>, FeedError>)
        requires
            old(self).wf(),
        ensures
            final(self).wf(),
            final(self).url == old(self).url,
            current.url@ != old(self).url@ ==> r == Err::<Option<String>, FeedError>(
                FeedError::MismatchedSource,
            ) && *final(self) == *old(self),
            current.url@ == old(self).url@ ==> r is Ok && final(self).baseline == Some(current)
                && match old(self).baseline {
                None => message_view(r->Ok_0) is None,
                Some(b) => message_view(r->Ok_0) == announcement(b@, current@),
            },
    {
        if current.url != self.url {
            return Err(FeedError::MismatchedSource);
        }
        let message = match &self.baseline {
            None => None,
            Some(b) => match detect(b, &current) {
                Ok(Some(event)) => Some(render(&event, current.title.clone())),
                Ok(None) => None,
                Err(e) => {
                    return Err(e);
                },
            },
        };
        self.baseline = Some(current);
        Ok(message)
    }

    /// One polling cycle on a parsed feed document: builds its snapshot and
    /// observes it. A document without a title fails with `MalformedFeed`
    /// and leaves the baseline as it was.
    pub fn poll(&mut self, feed: &RawFeed) -> (r: Result<Option<String>, FeedError>)
        requires
            old(self).wf(),
        ensures
            final(self).wf(),
            final(self).url == old(self).url,
            match snapshot_of(*feed, old(self).url@) {
                None => r == Err::<Option<String>, FeedError>(FeedError::MalformedFeed)
                    && *final(self) == *old(self),
                Some(s) => r is Ok && final(self).baseline is Some && final(self).baseline.unwrap()@
                    == s && match old(self).baseline {
                    None => message_view(r->Ok_0) is None,
                    Some(b) => message_view(r->Ok_0) == announcement(b@, s),
                },
            },
    {
        let current = match StrippedChannel::from_channel(feed, self.url.as_str()) {
            Ok(c) => c,
            Err(e) => {
                return Err(e);
            },
        };
        self.observe(current)
    }
}

} // verus!
