//! The harvest of a channel: its uploads playlist first, then the comments
//! of every video in upload order, one video at a time.
//!
//! A [`Harvest`] is a state between two requests. Its variant says which
//! request is due, and the value inside names the request's subject and
//! page. The caller performs the request and hands the response to the
//! function of that variant, which gives the next state. Any error ends the
//! harvest: nothing is kept of it.

use crate::failure::{spec_result_view, HarvestError, ThreadFailure};
use crate::model::{
    lemma_deep_view_push, spec_assemble, ParentComment, ParentCommentView, PlaylistItem,
    PlaylistItemView, Video, VideoView,
};
use crate::playlist::{
    spec_playlist_advance, spec_playlist_start, PlaylistStep, PlaylistStepView, PlaylistWalk,
    PlaylistWalkView,
};
use crate::threads::{
    spec_reply_page, spec_thread_failure, spec_thread_page, spec_thread_start, CommentStep,
    CommentStepView, ReplyWait, ReplyWaitView, ThreadWait, ThreadWaitView,
};
use crate::wire::{
    PlaylistPage, PlaylistPageView, ReplyPage, ReplyPageView, ThreadPage, ThreadPageView,
};
use vstd::prelude::*;

verus! {

/// Whether `videos` are the results for the first of `items`, one for one
/// and in order.
pub open spec fn spec_in_upload_order(
    items: Seq<PlaylistItemView>,
    videos: Seq<VideoView>,
) -> bool {
    &&& videos.len() <= items.len()
    &&& forall|i: int|
        0 <= i < videos.len() ==> (#[trigger] videos[i]).title == items[i].title && videos[i].id
            == items[i].video_id
}

/// The videos of a channel while their comments are harvested: all of them
/// as the playlist named them, and the results for those that are finished.
/// The video in work is the one after the finished ones.
#[derive(Debug)]
pub struct Progress {
    items: Vec<PlaylistItem>,
    videos: Vec<Video>,
}

/// Mathematical value of a [`Progress`].
pub struct ProgressView {
    pub items: Seq<PlaylistItemView>,
    pub videos: Seq<VideoView>,
}

impl ProgressView {
    /// Whether there is a video in work, and the finished videos are the
    /// results for the videos before it.
    pub open spec fn well_formed(self) -> bool {
        &&& self.videos.len() < self.items.len()
        &&& spec_in_upload_order(self.items, self.videos)
    }

    /// The video in work.
    pub open spec fn current(self) -> PlaylistItemView {
        self.items[self.videos.len() as int]
    }
}

impl DeepView for Progress {
    type V = ProgressView;

    closed spec fn deep_view(&self) -> ProgressView {
        ProgressView { items: self.items.deep_view(), videos: self.videos.deep_view() }
    }
}

impl Progress {
    #[verifier::type_invariant]
    spec fn holds_a_video_in_work(self) -> bool {
        self.deep_view().well_formed()
    }

    /// The number of videos of the channel.
    pub fn total(&self) -> (total: usize)
        ensures
            total == self.deep_view().items.len(),
            self.deep_view().well_formed(),
    {
        proof {
            use_type_invariant(self);
        }
        self.items.len()
    }

    /// The number of videos whose comments are complete.
    pub fn finished(&self) -> (finished: usize)
        ensures
            finished == self.deep_view().videos.len(),
            self.deep_view().well_formed(),
    {
        proof {
            use_type_invariant(self);
        }
        self.videos.len()
    }

    /// The video whose comments are harvested now.
    pub fn current(&self) -> (item: &PlaylistItem)
        ensures
            item.deep_view() == self.deep_view().current(),
            self.deep_view().well_formed(),
    {
        proof {
            use_type_invariant(self);
        }
        &self.items[self.videos.len()]
    }
}

/// A harvest between two requests.
#[derive(Debug)]
pub enum Harvest {
    /// A page of the uploads playlist is due.
    Listing(PlaylistWalk),
    /// A page of the threads of the video in work is due.
    Threads(Progress, ThreadWait),
    /// A page of the replies to a comment on the video in work is due.
    Replies(Progress, ReplyWait),
    /// The harvest is complete: one result for each video, in upload order.
    Finished(Vec<Video>),
}

/// Mathematical value of a [`Harvest`].
pub enum HarvestView {
    Listing(PlaylistWalkView),
    Threads(ProgressView, ThreadWaitView),
    Replies(ProgressView, ReplyWaitView),
    Finished(Seq<VideoView>),
}

impl DeepView for Harvest {
    type V = HarvestView;

    open spec fn deep_view(&self) -> HarvestView {
        match self {
            Harvest::Listing(walk) => HarvestView::Listing(walk.deep_view()),
            Harvest::Threads(progress, wait) => HarvestView::Threads(
                progress.deep_view(),
                wait.deep_view(),
            ),
            Harvest::Replies(progress, wait) => HarvestView::Replies(
                progress.deep_view(),
                wait.deep_view(),
            ),
            Harvest::Finished(videos) => HarvestView::Finished(videos.deep_view()),
        }
    }
}

/// The harvest before its first request.
pub open spec fn spec_harvest_start(playlist_id: Seq<char>) -> HarvestView {
    HarvestView::Listing(spec_playlist_start(playlist_id))
}

/// Turns to the video after the finished ones: its threads are asked for
/// from the first page. Without such a video the harvest is complete.
pub open spec fn spec_next_video(
    items: Seq<PlaylistItemView>,
    videos: Seq<VideoView>,
) -> HarvestView {
    if videos.len() < items.len() {
        HarvestView::Threads(
            ProgressView { items, videos },
            spec_thread_start(items[videos.len() as int].video_id),
        )
    } else {
        HarvestView::Finished(videos)
    }
}

/// Closes the video in work with `comments` and turns to the next video.
pub open spec fn spec_video_done(
    progress: ProgressView,
    comments: Seq<ParentCommentView>,
) -> HarvestView {
    spec_next_video(
        progress.items,
        progress.videos.push(spec_assemble(progress.current(), comments)),
    )
}

/// The harvest after a step in the comments of the video in work.
pub open spec fn spec_after_step(progress: ProgressView, step: CommentStepView) -> HarvestView {
    match step {
        CommentStepView::Threads(wait) => HarvestView::Threads(progress, wait),
        CommentStepView::Replies(wait) => HarvestView::Replies(progress, wait),
        CommentStepView::Done(comments) => spec_video_done(progress, comments),
    }
}

/// The harvest after a page of the uploads playlist. With the last page the
/// harvest turns to the first video.
pub open spec fn spec_on_playlist_page(walk: PlaylistWalkView, page: PlaylistPageView) -> Result<
    HarvestView,
    HarvestError,
> {
    match spec_playlist_advance(walk, page) {
        Ok(PlaylistStepView::More(next)) => Ok(HarvestView::Listing(next)),
        Ok(PlaylistStepView::Done(items)) => Ok(spec_next_video(items, Seq::empty())),
        Err(error) => Err(error),
    }
}

/// The harvest after a page of threads.
pub open spec fn spec_on_thread_page(
    progress: ProgressView,
    wait: ThreadWaitView,
    page: ThreadPageView,
) -> HarvestView {
    spec_after_step(progress, spec_thread_page(wait, page))
}

/// The harvest after a failed request for threads: the video is closed with
/// the comments finished so far if its comments are switched off, and the
/// harvest ends with an error otherwise.
pub open spec fn spec_on_thread_failure(
    progress: ProgressView,
    wait: ThreadWaitView,
    failure: ThreadFailure,
) -> Result<HarvestView, HarvestError> {
    match spec_thread_failure(wait, failure) {
        Ok(comments) => Ok(spec_video_done(progress, comments)),
        Err(error) => Err(error),
    }
}

/// The harvest after a page of replies.
pub open spec fn spec_on_reply_page(
    progress: ProgressView,
    wait: ReplyWaitView,
    page: ReplyPageView,
) -> HarvestView {
    spec_after_step(progress, spec_reply_page(wait, page))
}

/// The harvest after the videos in work, one after the other, were closed
/// with `comments`, one list for each, for as long as a video is in work.
pub open spec fn spec_close_videos(
    harvest: HarvestView,
    comments: Seq<Seq<ParentCommentView>>,
) -> HarvestView
    decreases comments.len(),
{
    if comments.len() == 0 {
        harvest
    } else {
        match harvest {
            HarvestView::Threads(progress, _) => spec_close_videos(
                spec_video_done(progress, comments.first()),
                comments.drop_first(),
            ),
            HarvestView::Replies(progress, _) => spec_close_videos(
                spec_video_done(progress, comments.first()),
                comments.drop_first(),
            ),
            other => other,
        }
    }
}

/// The results for `items` where `comments` holds the comments of each, in
/// the same order.
pub open spec fn spec_export(
    items: Seq<PlaylistItemView>,
    comments: Seq<Seq<ParentCommentView>>,
) -> Seq<VideoView> {
    Seq::new(items.len(), |i: int| spec_assemble(items[i], comments[i]))
}

/// Turns to the video after the finished ones.
fn next_video(items: Vec<PlaylistItem>, videos: Vec<Video>) -> (harvest: Harvest)
    requires
        spec_in_upload_order(items.deep_view(), videos.deep_view()),
    ensures
        harvest.deep_view() == spec_next_video(items.deep_view(), videos.deep_view()),
{
    if videos.len() < items.len() {
        let wait = ThreadWait::start(items[videos.len()].video_id.clone());
        Harvest::Threads(Progress { items, videos }, wait)
    } else {
        Harvest::Finished(videos)
    }
}

/// Closes the video in work with `comments`.
fn video_done(progress: Progress, comments: Vec<ParentComment>) -> (harvest: Harvest)
    ensures
        harvest.deep_view() == spec_video_done(progress.deep_view(), comments.deep_view()),
{
    proof {
        use_type_invariant(&progress);
    }
    let Progress { items, videos } = progress;
    let mut videos = videos;
    let ghost before = videos;
    let video = Video::assemble(&items[videos.len()], comments);
    videos.push(video);
    proof {
        lemma_deep_view_push(before, videos, video);
    }
    next_video(items, videos)
}

/// The harvest after a step in the comments of the video in work.
fn after_step(progress: Progress, step: CommentStep) -> (harvest: Harvest)
    ensures
        harvest.deep_view() == spec_after_step(progress.deep_view(), step.deep_view()),
{
    match step {
        CommentStep::Threads(wait) => Harvest::Threads(progress, wait),
        CommentStep::Replies(wait) => Harvest::Replies(progress, wait),
        CommentStep::Done(comments) => video_done(progress, comments),
    }
}

impl Harvest {
    /// The harvest of the channel whose uploads playlist is `playlist_id`,
    /// before its first request.
    pub fn start(playlist_id: String) -> (harvest: Harvest)
        ensures
            harvest.deep_view() == spec_harvest_start(playlist_id@),
    {
        Harvest::Listing(PlaylistWalk::start(playlist_id))
    }

    /// Takes the playlist page that `walk` asked for.
    pub fn playlist_page(walk: PlaylistWalk, page: PlaylistPage) -> (result: Result<
        Harvest,
        HarvestError,
    >)
        ensures
            spec_result_view(result) == spec_on_playlist_page(walk.deep_view(), page.deep_view()),
    {
        match walk.advance(page) {
            Ok(PlaylistStep::More(next)) => Ok(Harvest::Listing(next)),
            Ok(PlaylistStep::Done(items)) => {
                let videos: Vec<Video> = Vec::new();
                proof {
                    assert(videos.deep_view() =~= Seq::empty());
                }
                Ok(next_video(items, videos))
            },
            Err(error) => Err(error),
        }
    }

    /// Takes the page of threads that `wait` asked for.
    pub fn thread_page(progress: Progress, wait: ThreadWait, page: ThreadPage) -> (harvest: Harvest)
        ensures
            harvest.deep_view() == spec_on_thread_page(
                progress.deep_view(),
                wait.deep_view(),
                page.deep_view(),
            ),
    {
        after_step(progress, wait.page(page))
    }

    /// Takes the failure of the request for threads that `wait` asked for.
    pub fn thread_failure(progress: Progress, wait: ThreadWait, failure: ThreadFailure) -> (result:
        Result<Harvest, HarvestError>)
        ensures
            spec_result_view(result) == spec_on_thread_failure(
                progress.deep_view(),
                wait.deep_view(),
                failure,
            ),
    {
        match wait.failure(failure) {
            Ok(comments) => Ok(video_done(progress, comments)),
            Err(error) => Err(error),
        }
    }

    /// Takes the page of replies that `wait` asked for.
    pub fn reply_page(progress: Progress, wait: ReplyWait, page: ReplyPage) -> (harvest: Harvest)
        ensures
            harvest.deep_view() == spec_on_reply_page(
                progress.deep_view(),
                wait.deep_view(),
                page.deep_view(),
            ),
    {
        after_step(progress, wait.page(page))
    }
}

/// One result for each video, in upload order: closing the video in work
/// adds its result behind those of the videos before it, under the title
/// and id that the playlist gave, with exactly the comments handed in. The
/// harvest then either turns to the next video of the playlist, asking for
/// the first page of its threads, or is complete, and has then one result
/// for each video of the playlist, in the playlist's order.
pub proof fn law_export_follows_uploads(progress: ProgressView, comments: Seq<ParentCommentView>)
    requires
        progress.well_formed(),
    ensures
        match spec_video_done(progress, comments) {
            HarvestView::Threads(next, wait) => {
                &&& next.well_formed()
                &&& next.items == progress.items
                &&& next.videos == progress.videos.push(
                    spec_assemble(progress.current(), comments),
                )
                &&& wait == spec_thread_start(next.current().video_id)
            },
            HarvestView::Finished(videos) => {
                &&& videos == progress.videos.push(spec_assemble(progress.current(), comments))
                &&& videos.len() == progress.items.len()
                &&& spec_in_upload_order(progress.items, videos)
            },
            _ => false,
        },
{
}

/// Closing all videos that are left ends the harvest with the results of
/// before and, behind them, one result for each video closed.
pub proof fn lemma_close_videos_from(
    items: Seq<PlaylistItemView>,
    videos: Seq<VideoView>,
    comments: Seq<Seq<ParentCommentView>>,
)
    requires
        videos.len() + comments.len() == items.len(),
    ensures
        spec_close_videos(spec_next_video(items, videos), comments) == HarvestView::Finished(
            videos + Seq::new(
                comments.len(),
                |i: int| spec_assemble(items[videos.len() + i], comments[i]),
            ),
        ),
    decreases comments.len(),
{
    let added = Seq::new(
        comments.len(),
        |i: int| spec_assemble(items[videos.len() + i], comments[i]),
    );
    if comments.len() == 0 {
        assert(videos + added =~= videos);
    } else {
        let progress = ProgressView { items, videos };
        let closed = videos.push(spec_assemble(progress.current(), comments.first()));
        let rest = comments.drop_first();
        lemma_close_videos_from(items, closed, rest);
        let later = Seq::new(rest.len(), |i: int| spec_assemble(items[closed.len() + i], rest[i]));
        assert(closed + later =~= videos + added);
    }
}

/// One result for each video, in upload order, from start to end: when the
/// videos of a playlist are closed one after the other, each with its
/// comments, the harvest is complete after the last, and its output holds
/// for each video of the playlist, in the playlist's order, the video's
/// title and id with exactly the comments it was closed with. A video
/// closed without comments stands there with an empty list.
pub proof fn law_export_is_one_video_per_upload(
    items: Seq<PlaylistItemView>,
    comments: Seq<Seq<ParentCommentView>>,
)
    requires
        comments.len() == items.len(),
    ensures
        spec_close_videos(spec_next_video(items, Seq::empty()), comments) == HarvestView::Finished(
            spec_export(items, comments),
        ),
        spec_export(items, comments).len() == items.len(),
        spec_in_upload_order(items, spec_export(items, comments)),
{
    lemma_close_videos_from(items, Seq::empty(), comments);
    assert(Seq::<VideoView>::empty() + Seq::new(
        comments.len(),
        |i: int| spec_assemble(items[0 + i], comments[i]),
    ) =~= spec_export(items, comments));
}

/// A playlist without videos gives a complete, empty harvest at once; any
/// other playlist starts with its first video.
pub proof fn law_listing_leads_to_first_video(items: Seq<PlaylistItemView>)
    ensures
        items.len() == 0 ==> spec_next_video(items, Seq::empty()) == HarvestView::Finished(
            Seq::empty(),
        ),
        items.len() > 0 ==> spec_next_video(items, Seq::empty()) == HarvestView::Threads(
            ProgressView { items, videos: Seq::empty() },
            spec_thread_start(items[0].video_id),
        ) && (ProgressView { items, videos: Seq::<VideoView>::empty() }).well_formed(),
{
}

/// Switched-off comments do not abort the harvest: when the request for
/// threads of the video in work fails as a bad request with code 403, the
/// harvest goes on without an error, and the video stands in the output
/// with the comments finished so far. If it was the video's first request,
/// the video stands there with an empty list of comments.
pub proof fn law_disabled_comments_do_not_abort(progress: ProgressView, wait: ThreadWaitView)
    requires
        progress.well_formed(),
    ensures
        spec_on_thread_failure(progress, wait, ThreadFailure::BadRequest { code: Some(403) })
            == Ok::<HarvestView, HarvestError>(spec_video_done(progress, wait.comments)),
        wait == spec_thread_start(progress.current().video_id) ==> spec_video_done(
            progress,
            wait.comments,
        ) == spec_next_video(
            progress.items,
            progress.videos.push(
                VideoView {
                    title: progress.current().title,
                    id: progress.current().video_id,
                    comments: Seq::empty(),
                },
            ),
        ),
{
}

/// Any other failure of a request for threads aborts the harvest with an
/// error that names the bad request's code where there is one.
pub proof fn law_other_failures_abort(
    progress: ProgressView,
    wait: ThreadWaitView,
    failure: ThreadFailure,
)
    requires
        failure != (ThreadFailure::BadRequest { code: Some(403) }),
    ensures
        spec_on_thread_failure(progress, wait, failure) is Err,
        failure matches ThreadFailure::BadRequest { code: Some(code) }
            ==> spec_on_thread_failure(progress, wait, failure) == Err::<
            HarvestView,
            HarvestError,
        >(HarvestError::BadRequest { code }),
{
}

} // verus!
