use comment_harvest::failure::{HarvestError, ThreadFailure};
use comment_harvest::harvest::Harvest;
use comment_harvest::model::Video;
use comment_harvest::wire::{
    PlaylistPage, RawComment, RawCommentSnippet, RawContentDetails, RawPlaylistItem,
    RawPlaylistSnippet, RawThread, RawThreadReplies, RawThreadSnippet, ReplyPage, ThreadPage,
};

/// A platform held in memory. A page token is the index of the page it names.
struct Platform {
    playlist: Vec<PlaylistPage>,
    threads: Vec<(String, Vec<Result<ThreadPage, ThreadFailure>>)>,
    replies: Vec<(String, Vec<ReplyPage>)>,
    playlist_calls: usize,
    thread_calls: Vec<String>,
    reply_calls: Vec<String>,
}

fn index_of(token: &Option<String>) -> usize {
    match token {
        Some(token) => token.parse().unwrap(),
        None => 0,
    }
}

impl Platform {
    fn new() -> Platform {
        Platform {
            playlist: vec![],
            threads: vec![],
            replies: vec![],
            playlist_calls: 0,
            thread_calls: vec![],
            reply_calls: vec![],
        }
    }

    fn list_playlist_items(&mut self, playlist_id: &str, token: &Option<String>) -> PlaylistPage {
        assert_eq!(playlist_id, "uploads");
        self.playlist_calls += 1;
        self.playlist[index_of(token)].clone()
    }

    fn list_comment_threads(
        &mut self,
        video_id: &str,
        token: &Option<String>,
    ) -> Result<ThreadPage, ThreadFailure> {
        self.thread_calls.push(video_id.to_string());
        let (_, pages) = self.threads.iter().find(|(id, _)| id == video_id).unwrap();
        pages[index_of(token)].clone()
    }

    fn list_comments(&mut self, parent_id: &str, token: &Option<String>) -> ReplyPage {
        self.reply_calls.push(parent_id.to_string());
        let (_, pages) = self.replies.iter().find(|(id, _)| id == parent_id).unwrap();
        pages[index_of(token)].clone()
    }
}

fn run(platform: &mut Platform) -> Result<Vec<Video>, HarvestError> {
    let mut harvest = Harvest::start("uploads".to_string());
    loop {
        harvest = match harvest {
            Harvest::Listing(walk) => {
                let page = platform.list_playlist_items(&walk.playlist_id, &walk.page_token);
                Harvest::playlist_page(walk, page)?
            },
            Harvest::Threads(progress, wait) => {
                assert_eq!(progress.current().video_id, wait.video_id);
                match platform.list_comment_threads(&wait.video_id, &wait.page_token) {
                    Ok(page) => Harvest::thread_page(progress, wait, page),
                    Err(failure) => Harvest::thread_failure(progress, wait, failure)?,
                }
            },
            Harvest::Replies(progress, wait) => {
                let page = platform.list_comments(&wait.walk.parent_id, &wait.walk.page_token);
                Harvest::reply_page(progress, wait, page)
            },
            Harvest::Finished(videos) => return Ok(videos),
        };
    }
}

fn entry(title: &str, video_id: &str) -> RawPlaylistItem {
    RawPlaylistItem {
        content_details: Some(RawContentDetails { video_id: Some(video_id.to_string()) }),
        snippet: Some(RawPlaylistSnippet { title: Some(title.to_string()) }),
    }
}

fn raw_comment(text: &str) -> RawComment {
    RawComment {
        snippet: Some(RawCommentSnippet {
            text_original: Some(text.to_string()),
            author_display_name: Some(format!("author of {text}")),
        }),
    }
}

fn thread(id: &str, text: &str, embedded: usize, total: u32) -> RawThread {
    RawThread {
        id: Some(id.to_string()),
        snippet: Some(RawThreadSnippet {
            top_level_comment: Some(raw_comment(text)),
            total_reply_count: Some(total),
        }),
        replies: Some(RawThreadReplies {
            comments: Some((0..embedded).map(|i| raw_comment(&format!("{text} inline {i}"))).collect()),
        }),
    }
}

fn one_page_playlist(entries: Vec<RawPlaylistItem>) -> Vec<PlaylistPage> {
    vec![PlaylistPage { items: Some(entries), next_page_token: None }]
}

#[test]
fn harvest_of_two_videos_fetches_replies_only_where_needed() {
    let mut platform = Platform::new();
    platform.playlist = one_page_playlist(vec![entry("Video A", "A"), entry("Video B", "B")]);
    platform.threads = vec![
        (
            "A".to_string(),
            vec![Ok(ThreadPage { items: Some(vec![thread("ta", "on A", 2, 2)]), next_page_token: None })],
        ),
        (
            "B".to_string(),
            vec![Ok(ThreadPage { items: Some(vec![thread("tb", "on B", 1, 5)]), next_page_token: None })],
        ),
    ];
    platform.replies = vec![(
        "tb".to_string(),
        vec![
            ReplyPage {
                items: Some(vec![raw_comment("r0"), raw_comment("r1"), raw_comment("r2")]),
                next_page_token: Some("1".to_string()),
            },
            ReplyPage { items: Some(vec![raw_comment("r3"), raw_comment("r4")]), next_page_token: None },
        ],
    )];

    let videos = run(&mut platform).unwrap();

    assert_eq!(videos.len(), 2);
    assert_eq!(videos[0].title, "Video A");
    assert_eq!(videos[0].id, "A");
    assert_eq!(videos[0].comments.len(), 1);
    assert_eq!(videos[0].comments[0].text, "on A");
    assert_eq!(videos[0].comments[0].children.len(), 2);
    assert_eq!(videos[0].comments[0].children[1].text, "on A inline 1");
    assert_eq!(videos[1].title, "Video B");
    assert_eq!(videos[1].id, "B");
    assert_eq!(videos[1].comments.len(), 1);
    assert_eq!(videos[1].comments[0].children.len(), 5);
    let texts: Vec<&str> = videos[1].comments[0].children.iter().map(|r| r.text.as_str()).collect();
    assert_eq!(texts, vec!["r0", "r1", "r2", "r3", "r4"]);
    assert_eq!(videos[1].comments[0].children[4].author_name, "author of r4");

    assert_eq!(platform.playlist_calls, 1);
    assert_eq!(platform.thread_calls, vec!["A".to_string(), "B".to_string()]);
    assert_eq!(platform.reply_calls, vec!["tb".to_string(), "tb".to_string()]);
}

#[test]
fn harvest_keeps_a_video_with_disabled_comments() {
    let mut platform = Platform::new();
    platform.playlist = one_page_playlist(vec![entry("Silent", "S")]);
    platform.threads =
        vec![("S".to_string(), vec![Err(ThreadFailure::BadRequest { code: Some(403) })])];

    let videos = run(&mut platform).unwrap();

    assert_eq!(
        videos,
        vec![Video { title: "Silent".to_string(), id: "S".to_string(), comments: vec![] }]
    );
    assert_eq!(platform.thread_calls, vec!["S".to_string()]);
    assert!(platform.reply_calls.is_empty());
}

#[test]
fn harvest_goes_on_after_a_video_with_disabled_comments() {
    let mut platform = Platform::new();
    platform.playlist =
        one_page_playlist(vec![entry("One", "1"), entry("Two", "2"), entry("Three", "3")]);
    platform.threads = vec![
        (
            "1".to_string(),
            vec![Ok(ThreadPage { items: Some(vec![thread("t1", "c1", 0, 0)]), next_page_token: None })],
        ),
        ("2".to_string(), vec![Err(ThreadFailure::BadRequest { code: Some(403) })]),
        (
            "3".to_string(),
            vec![Ok(ThreadPage { items: Some(vec![thread("t3", "c3", 0, 0)]), next_page_token: None })],
        ),
    ];

    let videos = run(&mut platform).unwrap();

    let summary: Vec<(&str, usize)> =
        videos.iter().map(|v| (v.id.as_str(), v.comments.len())).collect();
    assert_eq!(summary, vec![("1", 1), ("2", 0), ("3", 1)]);
}

#[test]
fn harvest_aborts_on_another_bad_request() {
    let mut platform = Platform::new();
    platform.playlist = one_page_playlist(vec![entry("One", "1"), entry("Two", "2")]);
    platform.threads = vec![
        ("1".to_string(), vec![Err(ThreadFailure::BadRequest { code: Some(400) })]),
        ("2".to_string(), vec![Ok(ThreadPage { items: None, next_page_token: None })]),
    ];

    assert_eq!(run(&mut platform).unwrap_err(), HarvestError::BadRequest { code: 400 });
    assert_eq!(platform.thread_calls, vec!["1".to_string()]);
}

#[test]
fn harvest_aborts_on_an_unreadable_bad_request() {
    let mut platform = Platform::new();
    platform.playlist = one_page_playlist(vec![entry("One", "1")]);
    platform.threads = vec![("1".to_string(), vec![Err(ThreadFailure::BadRequest { code: None })])];
    assert_eq!(run(&mut platform).unwrap_err(), HarvestError::UnreadableBadRequest);
}

#[test]
fn harvest_aborts_on_a_transport_failure_in_a_later_video() {
    let mut platform = Platform::new();
    platform.playlist = one_page_playlist(vec![entry("One", "1"), entry("Two", "2")]);
    platform.threads = vec![
        ("1".to_string(), vec![Ok(ThreadPage { items: Some(vec![]), next_page_token: None })]),
        ("2".to_string(), vec![Err(ThreadFailure::Other)]),
    ];
    assert_eq!(run(&mut platform).unwrap_err(), HarvestError::RequestFailed);
}

#[test]
fn harvest_aborts_on_a_malformed_playlist_item() {
    let mut platform = Platform::new();
    let mut broken = entry("Two", "2");
    broken.content_details = None;
    platform.playlist = one_page_playlist(vec![entry("One", "1"), broken]);
    assert_eq!(run(&mut platform).unwrap_err(), HarvestError::MalformedPlaylistItem);
    assert!(platform.thread_calls.is_empty());
}

#[test]
fn harvest_of_an_empty_channel_is_empty() {
    let mut platform = Platform::new();
    platform.playlist = one_page_playlist(vec![]);
    assert_eq!(run(&mut platform).unwrap(), vec![]);
    assert_eq!(platform.playlist_calls, 1);
    assert!(platform.thread_calls.is_empty());
}

#[test]
fn harvest_follows_upload_order_over_playlist_pages() {
    let mut platform = Platform::new();
    platform.playlist = vec![
        PlaylistPage {
            items: Some(vec![entry("T0", "v0"), entry("T1", "v1")]),
            next_page_token: Some("1".to_string()),
        },
        PlaylistPage { items: Some(vec![entry("T2", "v2")]), next_page_token: Some("2".to_string()) },
        PlaylistPage { items: Some(vec![entry("T3", "v3")]), next_page_token: None },
    ];
    platform.threads = (0..4)
        .map(|i| {
            (
                format!("v{i}"),
                vec![Ok(ThreadPage {
                    items: Some((0..i).map(|k| thread(&format!("t{i}-{k}"), "c", 0, 0)).collect()),
                    next_page_token: None,
                })],
            )
        })
        .collect();

    let videos = run(&mut platform).unwrap();

    let summary: Vec<(String, String, usize)> =
        videos.iter().map(|v| (v.title.clone(), v.id.clone(), v.comments.len())).collect();
    assert_eq!(
        summary,
        vec![
            ("T0".to_string(), "v0".to_string(), 0),
            ("T1".to_string(), "v1".to_string(), 1),
            ("T2".to_string(), "v2".to_string(), 2),
            ("T3".to_string(), "v3".to_string(), 3),
        ]
    );
    assert_eq!(platform.playlist_calls, 3);
    assert_eq!(platform.thread_calls.len(), 4);
}

#[test]
fn harvest_reports_its_progress() {
    let mut platform = Platform::new();
    platform.playlist = one_page_playlist(vec![entry("One", "1"), entry("Two", "2")]);
    let walk = match Harvest::start("uploads".to_string()) {
        Harvest::Listing(walk) => walk,
        other => panic!("unexpected state {other:?}"),
    };
    let page = platform.list_playlist_items(&walk.playlist_id, &walk.page_token);
    let (progress, wait) = match Harvest::playlist_page(walk, page).unwrap() {
        Harvest::Threads(progress, wait) => (progress, wait),
        other => panic!("unexpected state {other:?}"),
    };
    assert_eq!(progress.total(), 2);
    assert_eq!(progress.finished(), 0);
    assert_eq!(progress.current().title, "One");
    assert_eq!(wait.video_id, "1");
    let (progress, wait) =
        match Harvest::thread_page(progress, wait, ThreadPage { items: None, next_page_token: None }) {
            Harvest::Threads(progress, wait) => (progress, wait),
            other => panic!("unexpected state {other:?}"),
        };
    assert_eq!(progress.total(), 2);
    assert_eq!(progress.finished(), 1);
    assert_eq!(progress.current().title, "Two");
    assert_eq!(wait.video_id, "2");
    assert_eq!(wait.page_token, None);
}

#[test]
fn harvest_pages_through_threads_and_replies_of_one_video() {
    let mut platform = Platform::new();
    platform.playlist = one_page_playlist(vec![entry("Only", "V")]);
    platform.threads = vec![(
        "V".to_string(),
        vec![
            Ok(ThreadPage {
                items: Some(vec![thread("a", "first", 0, 0), thread("b", "second", 0, 2)]),
                next_page_token: Some("1".to_string()),
            }),
            Ok(ThreadPage { items: Some(vec![thread("c", "third", 1, 1)]), next_page_token: None }),
        ],
    )];
    platform.replies = vec![(
        "b".to_string(),
        vec![ReplyPage { items: Some(vec![raw_comment("b0"), raw_comment("b1")]), next_page_token: None }],
    )];

    let videos = run(&mut platform).unwrap();

    assert_eq!(videos.len(), 1);
    let shape: Vec<(&str, usize)> =
        videos[0].comments.iter().map(|c| (c.text.as_str(), c.children.len())).collect();
    assert_eq!(shape, vec![("first", 0), ("second", 2), ("third", 1)]);
    assert_eq!(platform.thread_calls, vec!["V".to_string(), "V".to_string()]);
    assert_eq!(platform.reply_calls, vec!["b".to_string()]);
}
