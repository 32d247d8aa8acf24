//! The requests of a harvest, as the platform is to receive them.
//!
//! A request names the parts of each item that are wanted, the number of
//! items on a page, its subject, and the page. The first page is asked for
//! with an empty page token; every later page with the token that came with
//! the page before it, as it is.

use vstd::prelude::*;

verus! {

/// Number of playlist entries asked for in one page.
pub const PLAYLIST_PAGE_SIZE: u32 = 50;

/// Number of threads, and of replies, asked for in one page.
pub const COMMENT_PAGE_SIZE: u32 = 100;

/// The rendering in which comment text is asked for: plain text.
pub fn text_format() -> (format: &'static str)
    ensures
        format@ == "plainText"@,
{
    "plainText"
}

/// The page token as a request carries it: the token as it is, and the
/// empty text for the first page.
pub open spec fn spec_token_parameter(page_token: Option<Seq<char>>) -> Seq<char> {
    match page_token {
        Some(token) => token,
        None => Seq::empty(),
    }
}

/// The page token as a request carries it.
pub fn token_parameter(page_token: &Option<String>) -> (parameter: &str)
    ensures
        parameter@ == spec_token_parameter(page_token.deep_view()),
{
    match page_token {
        Some(token) => token.as_str(),
        None => {
            proof {
                reveal_strlit("");
                assert(""@ =~= Seq::<char>::empty());
            }
            ""
        },
    }
}

/// The parts asked for of a channel.
pub fn channel_parts() -> (parts: Vec<String>)
    ensures
        parts.deep_view() == seq!["contentDetails"@],
{
    let mut parts: Vec<String> = Vec::new();
    parts.push("contentDetails".to_owned());
    proof {
        assert(parts.deep_view() =~= seq!["contentDetails"@]);
    }
    parts
}

/// The parts asked for of a playlist entry: they hold its title and its
/// video id.
pub fn playlist_parts() -> (parts: Vec<String>)
    ensures
        parts.deep_view() == seq!["snippet"@, "contentDetails"@],
{
    let mut parts: Vec<String> = Vec::new();
    parts.push("snippet".to_owned());
    parts.push("contentDetails".to_owned());
    proof {
        assert(parts.deep_view() =~= seq!["snippet"@, "contentDetails"@]);
    }
    parts
}

/// The parts asked for of a thread: its top-level comment with the reply
/// count, and the replies embedded in it.
pub fn thread_parts() -> (parts: Vec<String>)
    ensures
        parts.deep_view() == seq!["snippet"@, "replies"@],
{
    let mut parts: Vec<String> = Vec::new();
    parts.push("snippet".to_owned());
    parts.push("replies".to_owned());
    proof {
        assert(parts.deep_view() =~= seq!["snippet"@, "replies"@]);
    }
    parts
}

/// The parts asked for of a reply.
pub fn reply_parts() -> (parts: Vec<String>)
    ensures
        parts.deep_view() == seq!["snippet"@],
{
    let mut parts: Vec<String> = Vec::new();
    parts.push("snippet".to_owned());
    proof {
        assert(parts.deep_view() =~= seq!["snippet"@]);
    }
    parts
}

/// The request for a channel by its id.
#[derive(Debug, Clone, PartialEq, Eq)]
pub struct ChannelRequest {
    pub parts: Vec<String>,
    pub id: String,
}

/// Mathematical value of a [`ChannelRequest`].
pub struct ChannelRequestView {
    pub parts: Seq<Seq<char>>,
    pub id: Seq<char>,
}

impl DeepView for ChannelRequest {
    type V = ChannelRequestView;

    open spec fn deep_view(&self) -> ChannelRequestView {
        ChannelRequestView { parts: self.parts.deep_view(), id: self.id@ }
    }
}

/// The request for a page of a playlist.
#[derive(Debug, Clone, PartialEq, Eq)]
pub struct PlaylistRequest {
    pub parts: Vec<String>,
    pub max_results: u32,
    pub playlist_id: String,
    pub page_token: String,
}

/// Mathematical value of a [`PlaylistRequest`].
pub struct PlaylistRequestView {
    pub parts: Seq<Seq<char>>,
    pub max_results: u32,
    pub playlist_id: Seq<char>,
    pub page_token: Seq<char>,
}

impl DeepView for PlaylistRequest {
    type V = PlaylistRequestView;

    open spec fn deep_view(&self) -> PlaylistRequestView {
        PlaylistRequestView {
            parts: self.parts.deep_view(),
            max_results: self.max_results,
            playlist_id: self.playlist_id@,
            page_token: self.page_token@,
        }
    }
}

/// The request for a page of the comment threads of a video.
#[derive(Debug, Clone, PartialEq, Eq)]
pub struct ThreadRequest {
    pub parts: Vec<String>,
    pub text_format: String,
    pub video_id: String,
    pub max_results: u32,
    pub page_token: String,
}

/// Mathematical value of a [`ThreadRequest`].
pub struct ThreadRequestView {
    pub parts: Seq<Seq<char>>,
    pub text_format: Seq<char>,
    pub video_id: Seq<char>,
    pub max_results: u32,
    pub page_token: Seq<char>,
}

impl DeepView for ThreadRequest {
    type V = ThreadRequestView;

    open spec fn deep_view(&self) -> ThreadRequestView {
        ThreadRequestView {
            parts: self.parts.deep_view(),
            text_format: self.text_format@,
            video_id: self.video_id@,
            max_results: self.max_results,
            page_token: self.page_token@,
        }
    }
}

/// The request for a page of the replies to a top-level comment.
#[derive(Debug, Clone, PartialEq, Eq)]
pub struct ReplyRequest {
    pub parts: Vec<String>,
    pub text_format: String,
    pub parent_id: String,
    pub max_results: u32,
    pub page_token: String,
}

/// Mathematical value of a [`ReplyRequest`].
pub struct ReplyRequestView {
    pub parts: Seq<Seq<char>>,
    pub text_format: Seq<char>,
    pub parent_id: Seq<char>,
    pub max_results: u32,
    pub page_token: Seq<char>,
}

impl DeepView for ReplyRequest {
    type V = ReplyRequestView;

    open spec fn deep_view(&self) -> ReplyRequestView {
        ReplyRequestView {
            parts: self.parts.deep_view(),
            text_format: self.text_format@,
            parent_id: self.parent_id@,
            max_results: self.max_results,
            page_token: self.page_token@,
        }
    }
}

/// The request for the channel `id`: its content details hold its
/// playlists.
pub open spec fn spec_channel_request(id: Seq<char>) -> ChannelRequestView {
    ChannelRequestView { parts: seq!["contentDetails"@], id }
}

/// The request for the page `page_token` of the playlist `playlist_id`: 50
/// entries with title and video id.
pub open spec fn spec_playlist_request(
    playlist_id: Seq<char>,
    page_token: Option<Seq<char>>,
) -> PlaylistRequestView {
    PlaylistRequestView {
        parts: seq!["snippet"@, "contentDetails"@],
        max_results: 50,
        playlist_id,
        page_token: spec_token_parameter(page_token),
    }
}

/// The request for the page `page_token` of the threads of `video_id`: 100
/// threads with their embedded replies, as plain text.
pub open spec fn spec_thread_request(
    video_id: Seq<char>,
    page_token: Option<Seq<char>>,
) -> ThreadRequestView {
    ThreadRequestView {
        parts: seq!["snippet"@, "replies"@],
        text_format: "plainText"@,
        video_id,
        max_results: 100,
        page_token: spec_token_parameter(page_token),
    }
}

/// The request for the page `page_token` of the replies to `parent_id`:
/// 100 replies, as plain text.
pub open spec fn spec_reply_request(
    parent_id: Seq<char>,
    page_token: Option<Seq<char>>,
) -> ReplyRequestView {
    ReplyRequestView {
        parts: seq!["snippet"@],
        text_format: "plainText"@,
        parent_id,
        max_results: 100,
        page_token: spec_token_parameter(page_token),
    }
}

/// The request for the channel `id`.
pub fn channel_request(id: &str) -> (request: ChannelRequest)
    ensures
        request.deep_view() == spec_channel_request(id@),
{
    ChannelRequest { parts: channel_parts(), id: id.to_owned() }
}

/// The request for a page of a playlist.
pub fn playlist_request(playlist_id: &String, page_token: &Option<String>) -> (request:
    PlaylistRequest)
    ensures
        request.deep_view() == spec_playlist_request(playlist_id@, page_token.deep_view()),
{
    PlaylistRequest {
        parts: playlist_parts(),
        max_results: PLAYLIST_PAGE_SIZE,
        playlist_id: playlist_id.clone(),
        page_token: token_parameter(page_token).to_owned(),
    }
}

/// The request for a page of the threads of a video.
pub fn thread_request(video_id: &String, page_token: &Option<String>) -> (request: ThreadRequest)
    ensures
        request.deep_view() == spec_thread_request(video_id@, page_token.deep_view()),
{
    ThreadRequest {
        parts: thread_parts(),
        text_format: text_format().to_owned(),
        video_id: video_id.clone(),
        max_results: COMMENT_PAGE_SIZE,
        page_token: token_parameter(page_token).to_owned(),
    }
}

/// The request for a page of the replies to a top-level comment.
pub fn reply_request(parent_id: &String, page_token: &Option<String>) -> (request: ReplyRequest)
    ensures
        request.deep_view() == spec_reply_request(parent_id@, page_token.deep_view()),
{
    ReplyRequest {
        parts: reply_parts(),
        text_format: text_format().to_owned(),
        parent_id: parent_id.clone(),
        max_results: COMMENT_PAGE_SIZE,
        page_token: token_parameter(page_token).to_owned(),
    }
}

} // verus!
