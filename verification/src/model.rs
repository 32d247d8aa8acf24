//! The harvested data: videos, their comments and the replies to them.
//!
//! Every type has a mathematical value, reached with `deep_view()`, in which
//! text is a `Seq<char>` and a list is a `Seq`. Contracts speak of those.

use vstd::prelude::*;

verus! {

/// The value of a vector after a push, element by element.
pub proof fn lemma_deep_view_push<T: DeepView>(before: Vec<T>, after: Vec<T>, last: T)
    requires
        after@ == before@.push(last),
    ensures
        after.deep_view() == before.deep_view().push(last.deep_view()),
{
    assert(after.deep_view() =~= before.deep_view().push(last.deep_view()));
}

/// A reply to a top-level comment. Replies do not nest.
#[derive(Debug, Clone, PartialEq, Eq)]
pub struct ChildComment {
    pub text: String,
    pub author_name: String,
}

/// Mathematical value of a [`ChildComment`].
pub struct ChildCommentView {
    pub text: Seq<char>,
    pub author_name: Seq<char>,
}

impl DeepView for ChildComment {
    type V = ChildCommentView;

    open spec fn deep_view(&self) -> ChildCommentView {
        ChildCommentView { text: self.text@, author_name: self.author_name@ }
    }
}

/// A top-level comment with its replies, in the order the platform gave them.
#[derive(Debug, Clone, PartialEq, Eq)]
pub struct ParentComment {
    pub text: String,
    pub author_name: String,
    pub children: Vec<ChildComment>,
}

/// Mathematical value of a [`ParentComment`].
pub struct ParentCommentView {
    pub text: Seq<char>,
    pub author_name: Seq<char>,
    pub children: Seq<ChildCommentView>,
}

impl DeepView for ParentComment {
    type V = ParentCommentView;

    open spec fn deep_view(&self) -> ParentCommentView {
        ParentCommentView {
            text: self.text@,
            author_name: self.author_name@,
            children: self.children.deep_view(),
        }
    }
}

impl ParentCommentView {
    /// The same comment with `children` as its replies.
    pub open spec fn with_children(self, children: Seq<ChildCommentView>) -> ParentCommentView {
        ParentCommentView { text: self.text, author_name: self.author_name, children }
    }
}

/// One uploaded video, as the uploads playlist names it.
#[derive(Debug, Clone, PartialEq, Eq)]
pub struct PlaylistItem {
    pub title: String,
    pub video_id: String,
}

/// Mathematical value of a [`PlaylistItem`].
pub struct PlaylistItemView {
    pub title: Seq<char>,
    pub video_id: Seq<char>,
}

impl DeepView for PlaylistItem {
    type V = PlaylistItemView;

    open spec fn deep_view(&self) -> PlaylistItemView {
        PlaylistItemView { title: self.title@, video_id: self.video_id@ }
    }
}

/// A video with every comment harvested for it. A video without comments
/// has an empty list.
#[derive(Debug, Clone, PartialEq, Eq)]
pub struct Video {
    pub title: String,
    pub id: String,
    pub comments: Vec<ParentComment>,
}

/// Mathematical value of a [`Video`].
pub struct VideoView {
    pub title: Seq<char>,
    pub id: Seq<char>,
    pub comments: Seq<ParentCommentView>,
}

impl DeepView for Video {
    type V = VideoView;

    open spec fn deep_view(&self) -> VideoView {
        VideoView { title: self.title@, id: self.id@, comments: self.comments.deep_view() }
    }
}

/// The video that `item` names, with `comments` as its comments.
pub open spec fn spec_assemble(
    item: PlaylistItemView,
    comments: Seq<ParentCommentView>,
) -> VideoView {
    VideoView { title: item.title, id: item.video_id, comments }
}

impl Video {
    /// Builds the result for one video from its playlist entry and the
    /// comments harvested for it.
    pub fn assemble(item: &PlaylistItem, comments: Vec<ParentComment>) -> (video: Video)
        ensures
            video.deep_view() == spec_assemble(item.deep_view(), comments.deep_view()),
    {
        Video { title: item.title.clone(), id: item.video_id.clone(), comments }
    }
}

} // verus!
