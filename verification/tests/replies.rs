use comment_harvest::model::ChildComment;
use comment_harvest::replies::{extend_with_valid, valid_replies, valid_reply, ReplyStep, ReplyWalk};
use comment_harvest::wire::{RawComment, RawCommentSnippet, ReplyPage};

fn raw_reply(text: Option<&str>, author: Option<&str>) -> RawComment {
    RawComment {
        snippet: Some(RawCommentSnippet {
            text_original: text.map(|t| t.to_string()),
            author_display_name: author.map(|a| a.to_string()),
        }),
    }
}

fn reply(text: &str, author: &str) -> ChildComment {
    ChildComment { text: text.to_string(), author_name: author.to_string() }
}

fn reply_page(items: Option<Vec<RawComment>>, token: Option<&str>) -> ReplyPage {
    ReplyPage { items, next_page_token: token.map(|t| t.to_string()) }
}

#[test]
fn reply_with_body_and_author_is_kept() {
    assert_eq!(valid_reply(&raw_reply(Some("hi"), Some("ann"))), Some(reply("hi", "ann")));
}

#[test]
fn reply_keeps_text_and_author_apart() {
    let kept = valid_reply(&raw_reply(Some("body"), Some("name"))).unwrap();
    assert_eq!(kept.text, "body");
    assert_eq!(kept.author_name, "name");
}

#[test]
fn reply_without_body_is_dropped() {
    assert_eq!(valid_reply(&raw_reply(None, Some("ann"))), None);
}

#[test]
fn reply_without_author_is_dropped() {
    assert_eq!(valid_reply(&raw_reply(Some("hi"), None)), None);
}

#[test]
fn reply_without_snippet_is_dropped() {
    assert_eq!(valid_reply(&RawComment { snippet: None }), None);
}

#[test]
fn reply_with_empty_body_is_kept() {
    assert_eq!(valid_reply(&raw_reply(Some(""), Some(""))), Some(reply("", "")));
}

#[test]
fn malformed_reply_does_not_disturb_its_neighbours() {
    let raws = vec![
        raw_reply(Some("a"), Some("1")),
        raw_reply(None, Some("2")),
        raw_reply(Some("c"), Some("3")),
        RawComment { snippet: None },
        raw_reply(Some("e"), None),
        raw_reply(Some("f"), Some("6")),
    ];
    assert_eq!(valid_replies(&raws), vec![reply("a", "1"), reply("c", "3"), reply("f", "6")]);
}

#[test]
fn no_raw_replies_give_no_replies() {
    assert_eq!(valid_replies(&Vec::new()), Vec::<ChildComment>::new());
}

#[test]
fn extend_appends_behind_what_is_there() {
    let mut replies = vec![reply("old", "o")];
    extend_with_valid(&mut replies, &vec![raw_reply(Some("new"), Some("n")), raw_reply(None, None)]);
    assert_eq!(replies, vec![reply("old", "o"), reply("new", "n")]);
}

#[test]
fn reply_walk_starts_without_token() {
    let walk = ReplyWalk::start("thread-1".to_string());
    assert_eq!(walk.parent_id, "thread-1");
    assert_eq!(walk.page_token, None);
    assert!(walk.replies.is_empty());
}

#[test]
fn reply_walk_ends_on_page_without_token() {
    let walk = ReplyWalk::start("t".to_string());
    match walk.advance(reply_page(Some(vec![raw_reply(Some("a"), Some("1"))]), None)) {
        ReplyStep::Done(replies) => assert_eq!(replies, vec![reply("a", "1")]),
        ReplyStep::More(_) => panic!("the walk went on"),
    }
}

#[test]
fn reply_walk_forwards_the_token_verbatim() {
    let walk = ReplyWalk::start("t".to_string());
    match walk.advance(reply_page(Some(vec![]), Some(" Tok=en/+ "))) {
        ReplyStep::More(next) => {
            assert_eq!(next.page_token, Some(" Tok=en/+ ".to_string()));
            assert_eq!(next.parent_id, "t");
        },
        ReplyStep::Done(_) => panic!("the walk ended"),
    }
}

#[test]
fn reply_walk_goes_on_after_an_empty_token() {
    let walk = ReplyWalk::start("t".to_string());
    match walk.advance(reply_page(Some(vec![raw_reply(Some("a"), Some("1"))]), Some(""))) {
        ReplyStep::More(next) => {
            assert_eq!(next.page_token, Some(String::new()));
            assert_eq!(next.replies, vec![reply("a", "1")]);
        },
        ReplyStep::Done(_) => panic!("an empty token ended the walk"),
    }
}

#[test]
fn reply_walk_takes_a_page_without_items_as_empty() {
    let walk = ReplyWalk::start("t".to_string());
    let walk = match walk.advance(reply_page(Some(vec![raw_reply(Some("a"), Some("1"))]), Some("2"))) {
        ReplyStep::More(next) => next,
        ReplyStep::Done(_) => panic!("the walk ended"),
    };
    match walk.advance(reply_page(None, None)) {
        ReplyStep::Done(replies) => assert_eq!(replies, vec![reply("a", "1")]),
        ReplyStep::More(_) => panic!("the walk went on"),
    }
}

fn walk_all(pages: Vec<ReplyPage>) -> (Vec<ChildComment>, usize) {
    let mut walk = ReplyWalk::start("parent".to_string());
    let mut taken = 0;
    for page in pages {
        taken += 1;
        match walk.advance(page) {
            ReplyStep::More(next) => walk = next,
            ReplyStep::Done(replies) => return (replies, taken),
        }
    }
    panic!("the listing ended before the walk");
}

#[test]
fn reply_walk_gathers_every_page_in_order() {
    let all: Vec<RawComment> =
        (0..7).map(|i| raw_reply(Some(&format!("text {i}")), Some(&format!("author {i}")))).collect();
    let expected: Vec<ChildComment> =
        (0..7).map(|i| reply(&format!("text {i}"), &format!("author {i}"))).collect();
    for size in 1..=7usize {
        let chunks: Vec<Vec<RawComment>> = all.chunks(size).map(|c| c.to_vec()).collect();
        let count = chunks.len();
        let pages: Vec<ReplyPage> = chunks
            .into_iter()
            .enumerate()
            .map(|(i, items)| {
                let token = if i + 1 < count { Some(format!("page-{}", i + 1)) } else { None };
                ReplyPage { items: Some(items), next_page_token: token }
            })
            .collect();
        let (replies, taken) = walk_all(pages);
        assert_eq!(replies, expected);
        assert_eq!(taken, count);
    }
}

#[test]
fn reply_walk_drops_malformed_replies_on_every_page() {
    let pages = vec![
        reply_page(Some(vec![raw_reply(Some("a"), Some("1")), raw_reply(None, Some("2"))]), Some("second")),
        reply_page(Some(vec![raw_reply(Some("c"), None)]), Some("third")),
        reply_page(Some(vec![RawComment { snippet: None }, raw_reply(Some("e"), Some("5"))]), None),
    ];
    let (replies, taken) = walk_all(pages);
    assert_eq!(replies, vec![reply("a", "1"), reply("e", "5")]);
    assert_eq!(taken, 3);
}
