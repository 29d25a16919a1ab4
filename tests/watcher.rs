use nostrnotify::config::{Config, ConfigError};
use nostrnotify::detect::detect;
use nostrnotify::feed::{
    feed_warnings, parse_status, FeedError, RawChild, RawExtension, RawFeed, RawItem, StrippedChannel,
};
use nostrnotify::monitor::FeedMonitor;
use nostrnotify::notification::{
    render, Episode, LiveItem, LiveItemStatus, NewContent, ToNotification,
};

const URL: &str = "https://example.com/feed.xml";
const LINK: &str = "https://example.com/live";

fn episode(title: &str, link: Option<&str>) -> Episode {
    Episode { title: title.to_string(), link: link.map(|l| l.to_string()) }
}

fn live(status: LiveItemStatus, start: &str) -> LiveItem {
    LiveItem { status, start_time: start.to_string(), link: LINK.to_string() }
}

fn snapshot(n_episodes: usize, live_items: Vec<LiveItem>) -> StrippedChannel {
    let mut episodes = Vec::new();
    for i in (0..n_episodes).rev() {
        episodes.push(episode(&format!("Ep {}", i + 1), None));
    }
    StrippedChannel {
        url: URL.to_string(),
        title: "My Show".to_string(),
        episodes,
        live_items,
    }
}

fn pair(k: &str, v: &str) -> (String, String) {
    (k.to_string(), v.to_string())
}

fn live_extension(status: &str, start: &str, link: &str) -> RawExtension {
    RawExtension {
        namespace: "podcast".to_string(),
        name: "liveItem".to_string(),
        attrs: vec![pair("status", status), pair("start", start)],
        children: vec![RawChild { name: "contentLink".to_string(), attrs: vec![pair("href", link)] }],
    }
}

fn raw_item(title: Option<&str>, link: Option<&str>) -> RawItem {
    RawItem { title: title.map(|t| t.to_string()), link: link.map(|l| l.to_string()) }
}

#[test]
fn identical_snapshots_give_no_event() {
    let s = snapshot(3, vec![live(LiveItemStatus::Live, "10:00")]);
    let t = snapshot(3, vec![live(LiveItemStatus::Live, "10:00")]);
    assert_eq!(detect(&s, &t), Ok(None));
}

#[test]
fn new_episode_wins_over_live_change() {
    let prev = snapshot(3, vec![live(LiveItemStatus::Pending, "10:00")]);
    let mut cur = snapshot(4, vec![live(LiveItemStatus::Live, "10:00")]);
    cur.episodes[0] = episode("Ep 42", None);
    assert_eq!(detect(&prev, &cur), Ok(Some(NewContent::NewEpisode(episode("Ep 42", None)))));
}

#[test]
fn single_status_change_reports_that_item() {
    let prev = snapshot(
        2,
        vec![
            live(LiveItemStatus::Ended, "08:00"),
            live(LiveItemStatus::Pending, "10:00"),
            live(LiveItemStatus::Pending, "12:00"),
        ],
    );
    let cur = snapshot(
        2,
        vec![
            live(LiveItemStatus::Ended, "08:00"),
            live(LiveItemStatus::Live, "10:00"),
            live(LiveItemStatus::Pending, "12:00"),
        ],
    );
    assert_eq!(
        detect(&prev, &cur),
        Ok(Some(NewContent::NewLiveItem(live(LiveItemStatus::Live, "10:00"))))
    );
}

#[test]
fn first_of_several_status_changes_is_reported() {
    let prev = snapshot(1, vec![live(LiveItemStatus::Pending, "a"), live(LiveItemStatus::Pending, "b")]);
    let cur = snapshot(1, vec![live(LiveItemStatus::Live, "a"), live(LiveItemStatus::Ended, "b")]);
    assert_eq!(
        detect(&prev, &cur),
        Ok(Some(NewContent::NewLiveItem(live(LiveItemStatus::Live, "a"))))
    );
}

#[test]
fn new_live_item_reports_the_first() {
    let prev = snapshot(1, vec![live(LiveItemStatus::Ended, "a")]);
    let cur = snapshot(1, vec![live(LiveItemStatus::Pending, "b"), live(LiveItemStatus::Ended, "a")]);
    assert_eq!(
        detect(&prev, &cur),
        Ok(Some(NewContent::NewLiveItem(live(LiveItemStatus::Pending, "b"))))
    );
}

#[test]
fn start_time_change_alone_gives_no_event() {
    let prev = snapshot(1, vec![live(LiveItemStatus::Pending, "10:00")]);
    let cur = snapshot(1, vec![live(LiveItemStatus::Pending, "11:00")]);
    assert_eq!(detect(&prev, &cur), Ok(None));
}

#[test]
fn removed_and_added_episode_is_no_new_episode() {
    let prev = snapshot(3, vec![]);
    let mut cur = snapshot(3, vec![]);
    cur.episodes[0] = episode("Ep 99", None);
    assert_eq!(detect(&prev, &cur), Ok(None));
}

#[test]
fn fewer_episodes_defers_to_live_items() {
    let prev = snapshot(3, vec![live(LiveItemStatus::Live, "a")]);
    let cur = snapshot(2, vec![live(LiveItemStatus::Ended, "a")]);
    assert_eq!(
        detect(&prev, &cur),
        Ok(Some(NewContent::NewLiveItem(live(LiveItemStatus::Ended, "a"))))
    );
}

#[test]
fn mismatched_sources_are_refused() {
    let prev = snapshot(1, vec![]);
    let mut cur = snapshot(2, vec![]);
    cur.url = "https://other.example/feed".to_string();
    assert_eq!(detect(&prev, &cur), Err(FeedError::MismatchedSource));
}

#[test]
fn render_is_deterministic() {
    let e = NewContent::NewLiveItem(live(LiveItemStatus::Pending, "10:00"));
    let a = render(&e, "My Show".to_string());
    let b = render(&e, "My Show".to_string());
    assert_eq!(a.as_bytes(), b.as_bytes());
}

#[test]
fn episode_link_line_present_only_with_link() {
    let without = episode("Ep 1", None).to_notification("My Show".to_string());
    assert_eq!(without, "New episode: My Show uploaded 'Ep 1'");
    assert!(!without.contains("Watch at"));
    let with = episode("Ep 1", Some("https://example.com/ep1")).to_notification("My Show".to_string());
    assert_eq!(with, "New episode: My Show uploaded 'Ep 1'\nWatch at https://example.com/ep1");
}

#[test]
fn scenario_new_episode() {
    let prev = snapshot(3, vec![]);
    let mut cur = snapshot(4, vec![]);
    cur.episodes[0] = episode("Ep 42", None);
    let event = detect(&prev, &cur).unwrap().unwrap();
    assert_eq!(event, NewContent::NewEpisode(episode("Ep 42", None)));
    assert_eq!(render(&event, "My Show".to_string()), "New episode: My Show uploaded 'Ep 42'");
}

#[test]
fn scenario_goes_live() {
    let prev = snapshot(1, vec![live(LiveItemStatus::Pending, "10:00")]);
    let cur = snapshot(1, vec![live(LiveItemStatus::Live, "10:00")]);
    let event = detect(&prev, &cur).unwrap().unwrap();
    assert_eq!(event, NewContent::NewLiveItem(live(LiveItemStatus::Live, "10:00")));
    assert_eq!(
        render(&event, "My Show".to_string()),
        format!("Live stream: My Show is now live!\nWatch at {}", LINK)
    );
}

#[test]
fn scenario_nothing_changed() {
    let items = vec![live(LiveItemStatus::Pending, "10:00"), live(LiveItemStatus::Ended, "09:00")];
    let prev = snapshot(2, items.clone());
    let cur = snapshot(2, items);
    assert_eq!(detect(&prev, &cur), Ok(None));
}

#[test]
fn scenario_no_extension() {
    let feed = RawFeed {
        title: "My Show".to_string(),
        items: vec![raw_item(Some("Ep 2"), None), raw_item(Some("Ep 1"), Some("https://e/1"))],
        extensions: vec![],
    };
    let s = StrippedChannel::from_channel(&feed, URL).unwrap();
    assert!(s.live_items.is_empty());
    assert_eq!(s.episodes, vec![episode("Ep 2", None), episode("Ep 1", Some("https://e/1"))]);
    assert_eq!(s.url, URL);
    assert_eq!(s.title, "My Show");
}

#[test]
fn scenario_unrecognized_status() {
    let feed = RawFeed {
        title: "My Show".to_string(),
        items: vec![],
        extensions: vec![live_extension("scheduled", "10:00", LINK)],
    };
    let s = StrippedChannel::from_channel(&feed, URL).unwrap();
    assert_eq!(s.live_items, vec![live(LiveItemStatus::Ended, "10:00")]);
    let text = s.live_items[0].to_notification("My Show".to_string());
    assert_eq!(text, "Live stream: My Show stopped streaming");
    assert!(!text.contains("Watch at"));
}

#[test]
fn pending_rendering() {
    let text = render(&NewContent::NewLiveItem(live(LiveItemStatus::Pending, "10:00")), "My Show".to_string());
    assert_eq!(text, format!("Live stream: My Show will be live at 10:00\nWatch at {}", LINK));
}

#[test]
fn status_strings_are_case_sensitive() {
    assert_eq!(parse_status(&"pending".to_string()), LiveItemStatus::Pending);
    assert_eq!(parse_status(&"live".to_string()), LiveItemStatus::Live);
    assert_eq!(parse_status(&"ended".to_string()), LiveItemStatus::Ended);
    assert_eq!(parse_status(&"Live".to_string()), LiveItemStatus::Ended);
    assert_eq!(parse_status(&"".to_string()), LiveItemStatus::Ended);
}

#[test]
fn untitled_items_are_dropped() {
    let feed = RawFeed {
        title: "Show".to_string(),
        items: vec![raw_item(None, Some("x")), raw_item(Some(""), None), raw_item(Some("Ep 1"), None)],
        extensions: vec![],
    };
    let s = StrippedChannel::from_channel(&feed, URL).unwrap();
    assert_eq!(s.episodes, vec![episode("Ep 1", None)]);
}

#[test]
fn missing_title_is_malformed() {
    let feed = RawFeed { title: String::new(), items: vec![raw_item(Some("Ep 1"), None)], extensions: vec![] };
    assert_eq!(StrippedChannel::from_channel(&feed, URL), Err(FeedError::MalformedFeed));
}

#[test]
fn live_items_keep_order_and_skip_other_extensions() {
    let mut incomplete = live_extension("live", "12:00", LINK);
    incomplete.children.clear();
    let other = RawExtension {
        namespace: "itunes".to_string(),
        name: "liveItem".to_string(),
        attrs: vec![pair("status", "live"), pair("start", "1")],
        children: vec![],
    };
    let feed = RawFeed {
        title: "Show".to_string(),
        items: vec![],
        extensions: vec![
            other,
            live_extension("live", "11:00", LINK),
            incomplete,
            live_extension("pending", "13:00", LINK),
        ],
    };
    let s = StrippedChannel::from_channel(&feed, URL).unwrap();
    assert_eq!(
        s.live_items,
        vec![live(LiveItemStatus::Live, "11:00"), live(LiveItemStatus::Pending, "13:00")]
    );
}

#[test]
fn monitor_first_poll_only_sets_baseline() {
    let mut m = FeedMonitor::new(URL.to_string());
    assert!(!m.is_baselined());
    let feed = RawFeed { title: "My Show".to_string(), items: vec![raw_item(Some("Ep 1"), None)], extensions: vec![] };
    assert_eq!(m.poll(&feed), Ok(None));
    assert!(m.is_baselined());
}

#[test]
fn monitor_announces_then_rebaselines() {
    let mut m = FeedMonitor::new(URL.to_string());
    let mut feed = RawFeed { title: "My Show".to_string(), items: vec![raw_item(Some("Ep 1"), None)], extensions: vec![] };
    assert_eq!(m.poll(&feed), Ok(None));
    feed.items.insert(0, raw_item(Some("Ep 2"), Some("https://e/2")));
    assert_eq!(
        m.poll(&feed),
        Ok(Some("New episode: My Show uploaded 'Ep 2'\nWatch at https://e/2".to_string()))
    );
    assert_eq!(m.poll(&feed), Ok(None));
}

#[test]
fn monitor_keeps_baseline_on_malformed_feed() {
    let mut m = FeedMonitor::new(URL.to_string());
    let good = RawFeed { title: "My Show".to_string(), items: vec![raw_item(Some("Ep 1"), None)], extensions: vec![] };
    assert_eq!(m.poll(&good), Ok(None));
    let bad = RawFeed { title: String::new(), items: vec![], extensions: vec![] };
    assert_eq!(m.poll(&bad), Err(FeedError::MalformedFeed));
    assert_eq!(m.baseline.as_ref().unwrap().episodes.len(), 1);
}

#[test]
fn monitor_refuses_other_feed() {
    let mut m = FeedMonitor::new(URL.to_string());
    let mut s = snapshot(1, vec![]);
    s.url = "https://other.example/feed".to_string();
    assert_eq!(m.observe(s), Err(FeedError::MismatchedSource));
    assert!(!m.is_baselined());
}

#[test]
fn default_config_values() {
    let c = Config::default();
    assert_eq!(c.relays, vec!["wss://nos.lol".to_string(), "wss://relay.house".to_string()]);
    assert!(c.feeds.is_empty());
    assert_eq!(c.check_interval_seconds, 300);
    assert!(c.secret_key.is_empty() && c.public_key.is_empty());
    assert!(c.name.is_empty() && c.display_name.is_empty() && c.description.is_empty());
}

#[test]
fn config_validation_errors() {
    let mut c = Config::default();
    assert_eq!(c.validate(), Err(ConfigError::NoFeeds));
    c.check_interval_seconds = 0;
    assert_eq!(c.validate(), Err(ConfigError::ZeroInterval));
    c.check_interval_seconds = 60;
    c.feeds.push(URL.to_string());
    assert_eq!(c.validate(), Ok(()));
}

#[test]
fn warnings_name_untitled_items_and_unknown_statuses() {
    let feed = RawFeed {
        title: "Show".to_string(),
        items: vec![raw_item(Some("Ep 3"), None), raw_item(None, None), raw_item(Some(""), None)],
        extensions: vec![
            live_extension("live", "1", LINK),
            live_extension("scheduled", "2", LINK),
            live_extension("Ended", "3", LINK),
        ],
    };
    let w = feed_warnings(&feed);
    assert_eq!(w.untitled_items, vec![1, 2]);
    assert_eq!(w.unrecognized_statuses, vec![1, 2]);
}

#[test]
fn clean_feed_has_no_warnings() {
    let feed = RawFeed {
        title: "Show".to_string(),
        items: vec![raw_item(Some("Ep 1"), None)],
        extensions: vec![live_extension("ended", "1", LINK)],
    };
    let w = feed_warnings(&feed);
    assert!(w.untitled_items.is_empty());
    assert!(w.unrecognized_statuses.is_empty());
}
