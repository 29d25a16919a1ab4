use vstd::prelude::*;
use crate::feed::{ChannelView, FeedError, StrippedChannel};
use crate::notification::{LiveItemView, NewContent, NewContentView};

verus! {

/// Position of the first live item, at or after `i`, whose status differs
/// from the item at the same position in `prev`.
pub open spec fn first_status_change_from(
    prev: Seq<LiveItemView>,
    cur: Seq<LiveItemView>,
    i: int,
) -> Option<int>
    decreases cur.len() - i,
{
    if i < 0 || i >= cur.len() || i >= prev.len() {
        None
    } else if cur[i].status != prev[i].status {
        Some(i)
    } else {
        first_status_change_from(prev, cur, i + 1)
    }
}

/// Position of the first live item whose status changed.
pub open spec fn first_status_change(prev: Seq<LiveItemView>, cur: Seq<LiveItemView>) -> Option<
    int,
> {
    first_status_change_from(prev, cur, 0)
}

/// The change worth announcing between two snapshots of one feed: a new
/// episode first, then a new live item, then the first live status change.
pub open spec fn detect_spec(prev: ChannelView, cur: ChannelView) -> Option<NewContentView> {
    if cur.episodes.len() > prev.episodes.len() {
        Some(NewContentView::NewEpisode(cur.episodes[0]))
    } else if cur.live_items.len() > prev.live_items.len() {
        Some(NewContentView::NewLiveItem(cur.live_items[0]))
    } else {
        match first_status_change(prev.live_items, cur.live_items) {
            Some(i) => Some(NewContentView::NewLiveItem(cur.live_items[i])),
            None => None,
        }
    }
}

/// The view of an optional change event.
pub open spec fn content_view(c: Option<NewContent>) -> Option<NewContentView> {
    match c {
        Some(x) => Some(x@),
        None => None,
    }
}

/// The first live item whose status differs from the one at the same position
/// in `old_feed`.
fn find_inconsistent_live_items(new_feed: &StrippedChannel, old_feed: &StrippedChannel) -> (r:
    Option<NewContent>)
    ensures
        content_view(r) == match first_status_change(old_feed@.live_items, new_feed@.live_items) {
            Some(i) => Some(NewContentView::NewLiveItem(new_feed@.live_items[i])),
            None => None,
        },
{
    let ghost prev = old_feed@.live_items;
    let ghost cur = new_feed@.live_items;
    let mut i: usize = 0;
    while i < new_feed.live_items.len() && i < old_feed.live_items.len()
        invariant
            i <= new_feed.live_items.len(),
            prev == old_feed@.live_items,
            cur == new_feed@.live_items,
            first_status_change(prev, cur) == first_status_change_from(prev, cur, i as int),
        decreases new_feed.live_items.len() - i,
    {
        if new_feed.live_items[i].status != old_feed.live_items[i].status {
            return Some(NewContent::NewLiveItem(new_feed.live_items[i].clone()));
        }
        i = i + 1;
    }
    None
}

/// Compares the previous and current snapshots of one feed and reports at
/// most one change; fails with `MismatchedSource` exactly when the two come
/// from different feeds.
pub fn detect(previous: &StrippedChannel, current: &StrippedChannel) -> (r: Result<
    Option<NewContent>,
    FeedError,
>)
    ensures
        match r {
            Ok(c) => previous.url@ == current.url@ && content_view(c) == detect_spec(
                previous@,
                current@,
            ),
            Err(e) => e == FeedError::MismatchedSource && previous.url@ != current.url@,
        },
{
    if previous.url != current.url {
        return Err(FeedError::MismatchedSource);
    }
    Ok(handle_update(current, previous))
}

/// The change worth announcing between `old_feed` and `new_feed`.
fn handle_update(new_feed: &StrippedChannel, old_feed: &StrippedChannel) -> (r: Option<NewContent>)
    ensures
        content_view(r) == detect_spec(old_feed@, new_feed@),
{
    if new_feed.episodes.len() > old_feed.episodes.len() {
        return Some(NewContent::NewEpisode(new_feed.episodes[0].clone()));
    }
    if new_feed.live_items.len() > old_feed.live_items.len() {
        return Some(NewContent::NewLiveItem(new_feed.live_items[0].clone()));
    }
    find_inconsistent_live_items(new_feed, old_feed)
}

proof fn lemma_no_change_from_self(s: Seq<LiveItemView>, i: int)
    requires
        0 <= i <= s.len(),
    ensures
        first_status_change_from(s, s, i) is None,
    decreases s.len() - i,
{
    if i < s.len() {
        lemma_no_change_from_self(s, i + 1);
    }
}

/// Comparing a snapshot with itself never reports a change.
pub proof fn lemma_detect_identical(s: ChannelView)
    ensures
        detect_spec(s, s) is None,
{
    lemma_no_change_from_self(s.live_items, 0);
}

/// When the current snapshot has more episodes, the newest episode is
/// reported, whatever happened to the live items.
pub proof fn lemma_new_episode_first(prev: ChannelView, cur: ChannelView)
    requires
        cur.episodes.len() > prev.episodes.len(),
    ensures
        detect_spec(prev, cur) == Some(NewContentView::NewEpisode(cur.episodes[0])),
{
}

proof fn lemma_single_change_from(prev: Seq<LiveItemView>, cur: Seq<LiveItemView>, i: int, j: int)
    requires
        cur.len() <= prev.len(),
        0 <= j <= i < cur.len(),
        cur[i].status != prev[i].status,
        forall|k: int| 0 <= k < cur.len() && k != i ==> cur[k].status == prev[k].status,
    ensures
        first_status_change_from(prev, cur, j) == Some(i),
    decreases i - j,
{
    if j < i {
        lemma_single_change_from(prev, cur, i, j + 1);
    }
}

/// With no new episode and no new live item, a live status that changed at
/// exactly one position is reported for the item at that position.
pub proof fn lemma_single_status_change(prev: ChannelView, cur: ChannelView, i: int)
    requires
        cur.episodes.len() == prev.episodes.len(),
        cur.live_items.len() <= prev.live_items.len(),
        0 <= i < cur.live_items.len(),
        cur.live_items[i].status != prev.live_items[i].status,
        forall|k: int|
            0 <= k < cur.live_items.len() && k != i ==> cur.live_items[k].status
                == prev.live_items[k].status,
    ensures
        detect_spec(prev, cur) == Some(NewContentView::NewLiveItem(cur.live_items[i])),
{
    lemma_single_change_from(prev.live_items, cur.live_items, i, 0);
}

} // verus!
