//! The platform's responses, reduced to the fields the harvest reads.
//!
//! The platform may leave out any field, so every field is optional here,
//! nested as the platform nests it. Nothing in this module decides anything:
//! what an absent field means is settled where the field is read.

use vstd::prelude::*;

verus! {

/// The items of a page; a page without an item list holds none.
pub open spec fn spec_items<T>(items: Option<Seq<T>>) -> Seq<T> {
    match items {
        Some(items) => items,
        None => Seq::empty(),
    }
}

/// Body and author of a comment or of a reply.
#[derive(Debug, Clone, PartialEq, Eq)]
pub struct RawCommentSnippet {
    pub text_original: Option<String>,
    pub author_display_name: Option<String>,
}

/// Mathematical value of a [`RawCommentSnippet`].
pub struct RawCommentSnippetView {
    pub text_original: Option<Seq<char>>,
    pub author_display_name: Option<Seq<char>>,
}

impl DeepView for RawCommentSnippet {
    type V = RawCommentSnippetView;

    open spec fn deep_view(&self) -> RawCommentSnippetView {
        RawCommentSnippetView {
            text_original: self.text_original.deep_view(),
            author_display_name: self.author_display_name.deep_view(),
        }
    }
}

/// A comment as the platform sends it: a top-level comment or a reply.
#[derive(Debug, Clone, PartialEq, Eq)]
pub struct RawComment {
    pub snippet: Option<RawCommentSnippet>,
}

/// Mathematical value of a [`RawComment`].
pub struct RawCommentView {
    pub snippet: Option<RawCommentSnippetView>,
}

impl DeepView for RawComment {
    type V = RawCommentView;

    open spec fn deep_view(&self) -> RawCommentView {
        RawCommentView { snippet: self.snippet.deep_view() }
    }
}

/// What a thread says of itself: its top-level comment and the number of
/// replies the platform counts for it.
#[derive(Debug, Clone, PartialEq, Eq)]
pub struct RawThreadSnippet {
    pub top_level_comment: Option<RawComment>,
    pub total_reply_count: Option<u32>,
}

/// Mathematical value of a [`RawThreadSnippet`].
pub struct RawThreadSnippetView {
    pub top_level_comment: Option<RawCommentView>,
    pub total_reply_count: Option<u32>,
}

impl DeepView for RawThreadSnippet {
    type V = RawThreadSnippetView;

    open spec fn deep_view(&self) -> RawThreadSnippetView {
        RawThreadSnippetView {
            top_level_comment: self.top_level_comment.deep_view(),
            total_reply_count: self.total_reply_count,
        }
    }
}

/// The replies that the platform embeds in a thread.
#[derive(Debug, Clone, PartialEq, Eq)]
pub struct RawThreadReplies {
    pub comments: Option<Vec<RawComment>>,
}

/// Mathematical value of a [`RawThreadReplies`].
pub struct RawThreadRepliesView {
    pub comments: Option<Seq<RawCommentView>>,
}

impl DeepView for RawThreadReplies {
    type V = RawThreadRepliesView;

    open spec fn deep_view(&self) -> RawThreadRepliesView {
        RawThreadRepliesView { comments: self.comments.deep_view() }
    }
}

/// A comment thread: a top-level comment with the replies embedded in it.
#[derive(Debug, Clone, PartialEq, Eq)]
pub struct RawThread {
    pub id: Option<String>,
    pub snippet: Option<RawThreadSnippet>,
    pub replies: Option<RawThreadReplies>,
}

/// Mathematical value of a [`RawThread`].
pub struct RawThreadView {
    pub id: Option<Seq<char>>,
    pub snippet: Option<RawThreadSnippetView>,
    pub replies: Option<RawThreadRepliesView>,
}

impl DeepView for RawThread {
    type V = RawThreadView;

    open spec fn deep_view(&self) -> RawThreadView {
        RawThreadView {
            id: self.id.deep_view(),
            snippet: self.snippet.deep_view(),
            replies: self.replies.deep_view(),
        }
    }
}

/// One page of a video's comment threads.
#[derive(Debug, Clone, PartialEq, Eq)]
pub struct ThreadPage {
    pub items: Option<Vec<RawThread>>,
    pub next_page_token: Option<String>,
}

/// Mathematical value of a [`ThreadPage`].
pub struct ThreadPageView {
    pub items: Option<Seq<RawThreadView>>,
    pub next_page_token: Option<Seq<char>>,
}

impl DeepView for ThreadPage {
    type V = ThreadPageView;

    open spec fn deep_view(&self) -> ThreadPageView {
        ThreadPageView {
            items: self.items.deep_view(),
            next_page_token: self.next_page_token.deep_view(),
        }
    }
}

/// One page of the replies to a top-level comment.
#[derive(Debug, Clone, PartialEq, Eq)]
pub struct ReplyPage {
    pub items: Option<Vec<RawComment>>,
    pub next_page_token: Option<String>,
}

/// Mathematical value of a [`ReplyPage`].
pub struct ReplyPageView {
    pub items: Option<Seq<RawCommentView>>,
    pub next_page_token: Option<Seq<char>>,
}

impl DeepView for ReplyPage {
    type V = ReplyPageView;

    open spec fn deep_view(&self) -> ReplyPageView {
        ReplyPageView {
            items: self.items.deep_view(),
            next_page_token: self.next_page_token.deep_view(),
        }
    }
}

/// The part of a playlist entry that names the video.
#[derive(Debug, Clone, PartialEq, Eq)]
pub struct RawContentDetails {
    pub video_id: Option<String>,
}

/// Mathematical value of a [`RawContentDetails`].
pub struct RawContentDetailsView {
    pub video_id: Option<Seq<char>>,
}

impl DeepView for RawContentDetails {
    type V = RawContentDetailsView;

    open spec fn deep_view(&self) -> RawContentDetailsView {
        RawContentDetailsView { video_id: self.video_id.deep_view() }
    }
}

/// The part of a playlist entry that holds the video's title.
#[derive(Debug, Clone, PartialEq, Eq)]
pub struct RawPlaylistSnippet {
    pub title: Option<String>,
}

/// Mathematical value of a [`RawPlaylistSnippet`].
pub struct RawPlaylistSnippetView {
    pub title: Option<Seq<char>>,
}

impl DeepView for RawPlaylistSnippet {
    type V = RawPlaylistSnippetView;

    open spec fn deep_view(&self) -> RawPlaylistSnippetView {
        RawPlaylistSnippetView { title: self.title.deep_view() }
    }
}

/// An entry of a playlist as the platform sends it.
#[derive(Debug, Clone, PartialEq, Eq)]
pub struct RawPlaylistItem {
    pub content_details: Option<RawContentDetails>,
    pub snippet: Option<RawPlaylistSnippet>,
}

/// Mathematical value of a [`RawPlaylistItem`].
pub struct RawPlaylistItemView {
    pub content_details: Option<RawContentDetailsView>,
    pub snippet: Option<RawPlaylistSnippetView>,
}

impl DeepView for RawPlaylistItem {
    type V = RawPlaylistItemView;

    open spec fn deep_view(&self) -> RawPlaylistItemView {
        RawPlaylistItemView {
            content_details: self.content_details.deep_view(),
            snippet: self.snippet.deep_view(),
        }
    }
}

/// One page of a playlist.
#[derive(Debug, Clone, PartialEq, Eq)]
pub struct PlaylistPage {
    pub items: Option<Vec<RawPlaylistItem>>,
    pub next_page_token: Option<String>,
}

/// Mathematical value of a [`PlaylistPage`].
pub struct PlaylistPageView {
    pub items: Option<Seq<RawPlaylistItemView>>,
    pub next_page_token: Option<Seq<char>>,
}

impl DeepView for PlaylistPage {
    type V = PlaylistPageView;

    open spec fn deep_view(&self) -> PlaylistPageView {
        PlaylistPageView {
            items: self.items.deep_view(),
            next_page_token: self.next_page_token.deep_view(),
        }
    }
}

/// The playlists that belong to a channel.
#[derive(Debug, Clone, PartialEq, Eq)]
pub struct RawRelatedPlaylists {
    pub uploads: Option<String>,
}

/// Mathematical value of a [`RawRelatedPlaylists`].
pub struct RawRelatedPlaylistsView {
    pub uploads: Option<Seq<char>>,
}

impl DeepView for RawRelatedPlaylists {
    type V = RawRelatedPlaylistsView;

    open spec fn deep_view(&self) -> RawRelatedPlaylistsView {
        RawRelatedPlaylistsView { uploads: self.uploads.deep_view() }
    }
}

/// The part of a channel that names its playlists.
#[derive(Debug, Clone, PartialEq, Eq)]
pub struct RawChannelDetails {
    pub related_playlists: Option<RawRelatedPlaylists>,
}

/// Mathematical value of a [`RawChannelDetails`].
pub struct RawChannelDetailsView {
    pub related_playlists: Option<RawRelatedPlaylistsView>,
}

impl DeepView for RawChannelDetails {
    type V = RawChannelDetailsView;

    open spec fn deep_view(&self) -> RawChannelDetailsView {
        RawChannelDetailsView { related_playlists: self.related_playlists.deep_view() }
    }
}

/// A channel as the platform sends it.
#[derive(Debug, Clone, PartialEq, Eq)]
pub struct RawChannel {
    pub content_details: Option<RawChannelDetails>,
}

/// Mathematical value of a [`RawChannel`].
pub struct RawChannelView {
    pub content_details: Option<RawChannelDetailsView>,
}

impl DeepView for RawChannel {
    type V = RawChannelView;

    open spec fn deep_view(&self) -> RawChannelView {
        RawChannelView { content_details: self.content_details.deep_view() }
    }
}

/// The platform's answer to the question for a channel by its id.
#[derive(Debug, Clone, PartialEq, Eq)]
pub struct ChannelPage {
    pub items: Option<Vec<RawChannel>>,
}

/// Mathematical value of a [`ChannelPage`].
pub struct ChannelPageView {
    pub items: Option<Seq<RawChannelView>>,
}

impl DeepView for ChannelPage {
    type V = ChannelPageView;

    open spec fn deep_view(&self) -> ChannelPageView {
        ChannelPageView { items: self.items.deep_view() }
    }
}

/// A channel that the lookup service found for a handle.
#[derive(Debug, Clone, PartialEq, Eq)]
pub struct HandleLookupItem {
    pub id: String,
}

/// Mathematical value of a [`HandleLookupItem`].
pub struct HandleLookupItemView {
    pub id: Seq<char>,
}

impl DeepView for HandleLookupItem {
    type V = HandleLookupItemView;

    open spec fn deep_view(&self) -> HandleLookupItemView {
        HandleLookupItemView { id: self.id@ }
    }
}

/// The lookup service's answer to the question for a handle.
#[derive(Debug, Clone, PartialEq, Eq)]
pub struct HandleLookup {
    pub items: Vec<HandleLookupItem>,
}

/// Mathematical value of a [`HandleLookup`].
pub struct HandleLookupView {
    pub items: Seq<HandleLookupItemView>,
}

impl DeepView for HandleLookup {
    type V = HandleLookupView;

    open spec fn deep_view(&self) -> HandleLookupView {
        HandleLookupView { items: self.items.deep_view() }
    }
}

} // verus!
