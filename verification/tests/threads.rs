use comment_harvest::failure::{HarvestError, ThreadFailure, Consequence};
use comment_harvest::model::{ChildComment, ParentComment};
use comment_harvest::threads::{
    contained_reply_count, embeds_all_replies, plan, top_level, total_reply_count, CommentStep,
    Plan, ReplyWait, ThreadWait,
};
use comment_harvest::wire::{
    RawComment, RawCommentSnippet, RawThread, RawThreadReplies, RawThreadSnippet, ReplyPage,
    ThreadPage,
};

fn raw_comment(text: Option<&str>, author: Option<&str>) -> RawComment {
    RawComment {
        snippet: Some(RawCommentSnippet {
            text_original: text.map(|t| t.to_string()),
            author_display_name: author.map(|a| a.to_string()),
        }),
    }
}

fn thread(
    id: Option<&str>,
    top: Option<RawComment>,
    total: Option<u32>,
    embedded: Option<Vec<RawComment>>,
) -> RawThread {
    RawThread {
        id: id.map(|i| i.to_string()),
        snippet: Some(RawThreadSnippet { top_level_comment: top, total_reply_count: total }),
        replies: embedded.map(|comments| RawThreadReplies { comments: Some(comments) }),
    }
}

fn simple_thread(id: &str, text: &str, embedded: usize, total: u32) -> RawThread {
    let replies: Vec<RawComment> = (0..embedded)
        .map(|i| raw_comment(Some(&format!("{text}/inline{i}")), Some("replier")))
        .collect();
    thread(Some(id), Some(raw_comment(Some(text), Some("author"))), Some(total), Some(replies))
}

fn reply(text: &str, author: &str) -> ChildComment {
    ChildComment { text: text.to_string(), author_name: author.to_string() }
}

fn comment(text: &str, author: &str, children: Vec<ChildComment>) -> ParentComment {
    ParentComment { text: text.to_string(), author_name: author.to_string(), children }
}

fn thread_page(items: Option<Vec<RawThread>>, token: Option<&str>) -> ThreadPage {
    ThreadPage { items, next_page_token: token.map(|t| t.to_string()) }
}

fn reply_page(texts: &[&str], token: Option<&str>) -> ReplyPage {
    ReplyPage {
        items: Some(texts.iter().map(|t| raw_comment(Some(t), Some("fetched"))).collect()),
        next_page_token: token.map(|t| t.to_string()),
    }
}

fn expect_replies(step: CommentStep) -> ReplyWait {
    match step {
        CommentStep::Replies(wait) => wait,
        other => panic!("replies were not asked for: {other:?}"),
    }
}

fn expect_threads(step: CommentStep) -> ThreadWait {
    match step {
        CommentStep::Threads(wait) => wait,
        other => panic!("threads were not asked for: {other:?}"),
    }
}

fn expect_done(step: CommentStep) -> Vec<ParentComment> {
    match step {
        CommentStep::Done(comments) => comments,
        other => panic!("the video was not finished: {other:?}"),
    }
}

#[test]
fn top_level_comment_needs_body_and_author() {
    let whole = thread(Some("t"), Some(raw_comment(Some("text"), Some("me"))), None, None);
    assert_eq!(top_level(&whole), Some(comment("text", "me", vec![])));
    let no_body = thread(Some("t"), Some(raw_comment(None, Some("me"))), None, None);
    assert_eq!(top_level(&no_body), None);
    let no_author = thread(Some("t"), Some(raw_comment(Some("text"), None)), None, None);
    assert_eq!(top_level(&no_author), None);
    let no_inner_snippet = thread(Some("t"), Some(RawComment { snippet: None }), None, None);
    assert_eq!(top_level(&no_inner_snippet), None);
    let no_comment = thread(Some("t"), None, None, None);
    assert_eq!(top_level(&no_comment), None);
    let no_snippet = RawThread { id: Some("t".to_string()), snippet: None, replies: None };
    assert_eq!(top_level(&no_snippet), None);
}

#[test]
fn reply_counts_default_to_zero() {
    let bare = RawThread { id: None, snippet: None, replies: None };
    assert_eq!(contained_reply_count(&bare), 0);
    assert_eq!(total_reply_count(&bare), 0);
    assert!(embeds_all_replies(&bare));
    let no_list = RawThread {
        id: None,
        snippet: Some(RawThreadSnippet { top_level_comment: None, total_reply_count: None }),
        replies: Some(RawThreadReplies { comments: None }),
    };
    assert_eq!(contained_reply_count(&no_list), 0);
    assert_eq!(total_reply_count(&no_list), 0);
}

#[test]
fn reply_counts_are_read_from_the_thread() {
    let t = simple_thread("t", "c", 3, 17);
    assert_eq!(contained_reply_count(&t), 3);
    assert_eq!(total_reply_count(&t), 17);
    assert!(!embeds_all_replies(&t));
    assert!(embeds_all_replies(&simple_thread("t", "c", 3, 3)));
    assert!(!embeds_all_replies(&simple_thread("t", "c", 3, 2)));
    assert!(!embeds_all_replies(&simple_thread("t", "c", 0, u32::MAX)));
}

#[test]
fn contained_count_includes_malformed_embedded_replies() {
    let t = thread(
        Some("t"),
        Some(raw_comment(Some("c"), Some("a"))),
        Some(2),
        Some(vec![raw_comment(Some("r"), Some("x")), raw_comment(None, None)]),
    );
    assert_eq!(contained_reply_count(&t), 2);
    match plan(&t) {
        Plan::Keep(kept) => assert_eq!(kept, comment("c", "a", vec![reply("r", "x")])),
        other => panic!("unexpected plan {other:?}"),
    }
}

#[test]
fn complete_thread_is_kept_with_its_embedded_replies() {
    match plan(&simple_thread("t1", "top", 2, 2)) {
        Plan::Keep(kept) => assert_eq!(
            kept,
            comment(
                "top",
                "author",
                vec![reply("top/inline0", "replier"), reply("top/inline1", "replier")]
            )
        ),
        other => panic!("unexpected plan {other:?}"),
    }
}

#[test]
fn thread_without_replies_is_kept_bare() {
    let t = thread(Some("t"), Some(raw_comment(Some("top"), Some("a"))), None, None);
    match plan(&t) {
        Plan::Keep(kept) => assert_eq!(kept, comment("top", "a", vec![])),
        other => panic!("unexpected plan {other:?}"),
    }
    let zero = thread(Some("t"), Some(raw_comment(Some("top"), Some("a"))), Some(0), Some(vec![]));
    match plan(&zero) {
        Plan::Keep(kept) => assert_eq!(kept, comment("top", "a", vec![])),
        other => panic!("unexpected plan {other:?}"),
    }
}

#[test]
fn incomplete_thread_has_its_replies_fetched() {
    match plan(&simple_thread("thread-9", "top", 1, 5)) {
        Plan::Fetch { comment: open, parent_id } => {
            assert_eq!(open, comment("top", "author", vec![]));
            assert_eq!(parent_id, "thread-9");
        },
        other => panic!("unexpected plan {other:?}"),
    }
}

#[test]
fn thread_with_more_embedded_than_reported_has_its_replies_fetched() {
    match plan(&simple_thread("t", "top", 3, 2)) {
        Plan::Fetch { comment: open, parent_id } => {
            assert_eq!(open, comment("top", "author", vec![]));
            assert_eq!(parent_id, "t");
        },
        other => panic!("unexpected plan {other:?}"),
    }
}

#[test]
fn incomplete_thread_without_id_is_kept_without_replies() {
    let mut t = simple_thread("t", "top", 1, 5);
    t.id = None;
    match plan(&t) {
        Plan::Keep(kept) => assert_eq!(kept, comment("top", "author", vec![])),
        other => panic!("unexpected plan {other:?}"),
    }
}

#[test]
fn malformed_thread_is_skipped_even_if_incomplete() {
    let t = thread(
        Some("t"),
        Some(raw_comment(None, Some("a"))),
        Some(9),
        Some(vec![raw_comment(Some("r"), Some("x"))]),
    );
    assert!(matches!(plan(&t), Plan::Skip));
}

#[test]
fn thread_wait_starts_without_token() {
    let wait = ThreadWait::start("video-1".to_string());
    assert_eq!(wait.video_id, "video-1");
    assert_eq!(wait.page_token, None);
    assert!(wait.comments.is_empty());
}

#[test]
fn malformed_comment_is_dropped_and_its_siblings_stay() {
    let page = thread_page(
        Some(vec![
            simple_thread("t1", "first", 0, 0),
            thread(Some("t2"), Some(raw_comment(None, Some("nobody"))), Some(0), None),
            thread(Some("t3"), Some(raw_comment(Some("no author"), None)), Some(0), None),
            simple_thread("t4", "last", 1, 1),
        ]),
        None,
    );
    let comments = expect_done(ThreadWait::start("v".to_string()).page(page));
    assert_eq!(
        comments,
        vec![
            comment("first", "author", vec![]),
            comment("last", "author", vec![reply("last/inline0", "replier")]),
        ]
    );
}

#[test]
fn thread_page_without_items_holds_no_thread() {
    let comments = expect_done(ThreadWait::start("v".to_string()).page(thread_page(None, None)));
    assert!(comments.is_empty());
    let next = expect_threads(ThreadWait::start("v".to_string()).page(thread_page(None, Some("n"))));
    assert_eq!(next.page_token, Some("n".to_string()));
    assert_eq!(next.video_id, "v");
}

#[test]
fn thread_pages_accumulate_in_order() {
    let wait = ThreadWait::start("v".to_string());
    let wait = expect_threads(wait.page(thread_page(
        Some(vec![simple_thread("a", "one", 0, 0), simple_thread("b", "two", 0, 0)]),
        Some("page 2"),
    )));
    assert_eq!(wait.page_token, Some("page 2".to_string()));
    assert_eq!(wait.comments.len(), 2);
    let wait = expect_threads(wait.page(thread_page(Some(vec![simple_thread("c", "three", 0, 0)]), Some(""))));
    assert_eq!(wait.page_token, Some(String::new()));
    let comments = expect_done(wait.page(thread_page(Some(vec![simple_thread("d", "four", 0, 0)]), None)));
    let texts: Vec<&str> = comments.iter().map(|c| c.text.as_str()).collect();
    assert_eq!(texts, vec!["one", "two", "three", "four"]);
}

#[test]
fn incomplete_thread_interrupts_the_page_and_the_page_resumes() {
    let page = thread_page(
        Some(vec![
            simple_thread("t1", "before", 1, 1),
            simple_thread("t2", "open", 1, 5),
            thread(Some("t3"), Some(raw_comment(None, None)), Some(0), None),
            simple_thread("t4", "after", 0, 0),
        ]),
        Some("next threads"),
    );
    let wait = expect_replies(ThreadWait::start("v".to_string()).page(page));
    assert_eq!(wait.walk.parent_id, "t2");
    assert_eq!(wait.walk.page_token, None);
    assert_eq!(wait.video_id, "v");
    assert_eq!(wait.comments.len(), 1);
    assert_eq!(wait.resume_at, 2);

    let wait = expect_replies(wait.page(reply_page(&["r1", "r2", "r3"], Some("more replies"))));
    assert_eq!(wait.walk.parent_id, "t2");
    assert_eq!(wait.walk.page_token, Some("more replies".to_string()));
    assert_eq!(wait.comments.len(), 1);

    let next = expect_threads(wait.page(reply_page(&["r4", "r5"], None)));
    assert_eq!(next.page_token, Some("next threads".to_string()));
    assert_eq!(
        next.comments,
        vec![
            comment("before", "author", vec![reply("before/inline0", "replier")]),
            comment(
                "open",
                "author",
                vec![
                    reply("r1", "fetched"),
                    reply("r2", "fetched"),
                    reply("r3", "fetched"),
                    reply("r4", "fetched"),
                    reply("r5", "fetched"),
                ]
            ),
            comment("after", "author", vec![]),
        ]
    );
}

#[test]
fn fetched_replies_replace_the_embedded_ones() {
    let page = thread_page(Some(vec![simple_thread("t", "open", 2, 3)]), None);
    let wait = expect_replies(ThreadWait::start("v".to_string()).page(page));
    let comments = expect_done(wait.page(reply_page(&["x", "y", "z"], None)));
    assert_eq!(
        comments,
        vec![comment(
            "open",
            "author",
            vec![reply("x", "fetched"), reply("y", "fetched"), reply("z", "fetched")]
        )]
    );
}

#[test]
fn fetched_replies_are_validated_one_by_one() {
    let page = thread_page(Some(vec![simple_thread("t", "open", 0, 3)]), None);
    let wait = expect_replies(ThreadWait::start("v".to_string()).page(page));
    let fetched = ReplyPage {
        items: Some(vec![
            raw_comment(Some("kept"), Some("a")),
            raw_comment(None, Some("b")),
            raw_comment(Some("also kept"), Some("c")),
        ]),
        next_page_token: None,
    };
    let comments = expect_done(wait.page(fetched));
    assert_eq!(
        comments,
        vec![comment("open", "author", vec![reply("kept", "a"), reply("also kept", "c")])]
    );
}

#[test]
fn two_incomplete_threads_on_one_page_are_fetched_in_turn() {
    let page = thread_page(
        Some(vec![simple_thread("first", "a", 0, 1), simple_thread("second", "b", 0, 2)]),
        None,
    );
    let wait = expect_replies(ThreadWait::start("v".to_string()).page(page));
    assert_eq!(wait.walk.parent_id, "first");
    let wait = expect_replies(wait.page(reply_page(&["a1"], None)));
    assert_eq!(wait.walk.parent_id, "second");
    assert_eq!(wait.walk.page_token, None);
    assert!(wait.walk.replies.is_empty());
    let comments = expect_done(wait.page(reply_page(&["b1", "b2"], None)));
    assert_eq!(
        comments,
        vec![
            comment("a", "author", vec![reply("a1", "fetched")]),
            comment("b", "author", vec![reply("b1", "fetched"), reply("b2", "fetched")]),
        ]
    );
}

#[test]
fn only_code_403_is_forgiven() {
    assert_eq!(ThreadFailure::BadRequest { code: Some(403) }.consequence(), Consequence::Disabled);
    assert_eq!(
        ThreadFailure::BadRequest { code: Some(404) }.consequence(),
        Consequence::Fatal(HarvestError::BadRequest { code: 404 })
    );
    assert_eq!(
        ThreadFailure::BadRequest { code: Some(0) }.consequence(),
        Consequence::Fatal(HarvestError::BadRequest { code: 0 })
    );
    assert_eq!(
        ThreadFailure::BadRequest { code: Some(u64::MAX) }.consequence(),
        Consequence::Fatal(HarvestError::BadRequest { code: u64::MAX })
    );
    assert_eq!(
        ThreadFailure::BadRequest { code: None }.consequence(),
        Consequence::Fatal(HarvestError::UnreadableBadRequest)
    );
    assert_eq!(ThreadFailure::Other.consequence(), Consequence::Fatal(HarvestError::RequestFailed));
}

#[test]
fn disabled_comments_give_an_empty_list() {
    let wait = ThreadWait::start("v".to_string());
    assert_eq!(wait.failure(ThreadFailure::BadRequest { code: Some(403) }), Ok(vec![]));
}

#[test]
fn disabled_comments_on_a_later_page_keep_what_was_finished() {
    let wait = ThreadWait::start("v".to_string());
    let wait = expect_threads(wait.page(thread_page(Some(vec![simple_thread("a", "one", 0, 0)]), Some("2"))));
    assert_eq!(
        wait.failure(ThreadFailure::BadRequest { code: Some(403) }),
        Ok(vec![comment("one", "author", vec![])])
    );
}

#[test]
fn other_bad_request_is_an_error() {
    let wait = ThreadWait::start("v".to_string());
    assert_eq!(
        wait.failure(ThreadFailure::BadRequest { code: Some(400) }),
        Err(HarvestError::BadRequest { code: 400 })
    );
}

#[test]
fn unreadable_bad_request_is_an_error() {
    let wait = ThreadWait::start("v".to_string());
    assert_eq!(
        wait.failure(ThreadFailure::BadRequest { code: None }),
        Err(HarvestError::UnreadableBadRequest)
    );
}

#[test]
fn failure_that_is_no_bad_request_is_an_error() {
    let wait = ThreadWait::start("v".to_string());
    assert_eq!(wait.failure(ThreadFailure::Other), Err(HarvestError::RequestFailed));
}
