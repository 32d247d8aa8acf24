//! What a whole harvest amounts to.
//!
//! A transcript is everything the platform said in the course of a harvest:
//! the pages of the uploads playlist, and for every video the pages of its
//! threads, each with the reply listings that were asked for while the page
//! was worked through, and perhaps a failed request at the end. This module
//! proves what the steps of [`crate::harvest`] make of a transcript.
//! Everything here is specification and proof.

use crate::failure::{spec_consequence, HarvestError, ThreadFailure, Consequence};
use crate::harvest::{
    law_export_is_one_video_per_upload, spec_after_step, spec_close_videos, spec_export,
    spec_harvest_start, spec_next_video, spec_on_playlist_page, spec_on_reply_page,
    spec_on_thread_failure, spec_on_thread_page, spec_video_done, HarvestView, ProgressView,
};
use crate::model::{spec_assemble, ParentCommentView, PlaylistItemView, VideoView};
use crate::playlist::{
    lemma_playlist_items_pointwise, lemma_playlist_run_from, spec_is_playlist_listing,
    spec_listed_entries, spec_pages_well_formed, spec_playlist_advance, spec_playlist_items,
    spec_playlist_run, spec_playlist_start, PlaylistWalkView,
};
use crate::reconcile::{
    law_page_is_reconciled, lemma_video_run_open, spec_all_answered, spec_answers,
    spec_feed, spec_is_open_thread_listing, spec_is_thread_listing, spec_page_end,
    spec_reconciled, spec_video_comments, spec_video_run, Exchange,
};
use crate::threads::{
    spec_reply_page, spec_reply_pages, spec_thread_page, spec_thread_start, CommentStepView,
    ReplyWaitView, ThreadWaitView,
};
use crate::wire::{spec_items, PlaylistPageView, ReplyPageView};
use vstd::prelude::*;

verus! {

/// What the platform said about one video: the pages of its threads with
/// their reply listings, and the failure of the request behind them, if
/// that request failed.
pub struct VideoTranscript {
    pub exchanges: Seq<Exchange>,
    pub failure: Option<ThreadFailure>,
}

impl VideoTranscript {
    /// Whether the transcript is that of a video taken to its end: every
    /// request for replies has its whole listing, and the thread pages are
    /// a whole listing, or a listing that was going on when the next
    /// request failed.
    pub open spec fn fits(self) -> bool {
        &&& spec_all_answered(self.exchanges)
        &&& match self.failure {
            None => spec_is_thread_listing(self.exchanges),
            Some(_) => spec_is_open_thread_listing(self.exchanges),
        }
    }

    /// What the video comes to: its comments, or the error that the failed
    /// request means.
    pub open spec fn outcome(self) -> Result<Seq<ParentCommentView>, HarvestError> {
        match self.failure {
            None => Ok(spec_video_comments(self.exchanges)),
            Some(failure) => match spec_consequence(failure) {
                Consequence::Disabled => Ok(spec_video_comments(self.exchanges)),
                Consequence::Fatal(error) => Err(error),
            },
        }
    }
}

/// The harvest after `pages` of the uploads playlist, taken one by one for
/// as long as the playlist is listed.
pub open spec fn spec_harvest_listing(harvest: HarvestView, pages: Seq<PlaylistPageView>) -> Result<
    HarvestView,
    HarvestError,
>
    decreases pages.len(),
{
    if pages.len() == 0 {
        Ok(harvest)
    } else {
        match harvest {
            HarvestView::Listing(walk) => match spec_on_playlist_page(walk, pages.first()) {
                Ok(next) => spec_harvest_listing(next, pages.drop_first()),
                Err(error) => Err(error),
            },
            other => Ok(other),
        }
    }
}

/// The harvest after `pages` of replies, taken one by one for as long as
/// replies are wanted.
pub open spec fn spec_harvest_reply_pages(
    harvest: HarvestView,
    pages: Seq<ReplyPageView>,
) -> HarvestView
    decreases pages.len(),
{
    if pages.len() == 0 {
        harvest
    } else {
        match harvest {
            HarvestView::Replies(progress, wait) => spec_harvest_reply_pages(
                spec_on_reply_page(progress, wait, pages.first()),
                pages.drop_first(),
            ),
            other => other,
        }
    }
}

/// The harvest after `listings` of replies, handed over one after the
/// other for as long as replies are wanted.
pub open spec fn spec_harvest_feed(
    harvest: HarvestView,
    listings: Seq<Seq<ReplyPageView>>,
) -> HarvestView
    decreases listings.len(),
{
    if listings.len() == 0 {
        harvest
    } else {
        match harvest {
            HarvestView::Replies(..) => spec_harvest_feed(
                spec_harvest_reply_pages(harvest, listings.first()),
                listings.drop_first(),
            ),
            other => other,
        }
    }
}

/// The harvest after `exchanges`, taken one by one for as long as threads
/// are wanted.
pub open spec fn spec_harvest_exchanges(
    harvest: HarvestView,
    exchanges: Seq<Exchange>,
) -> HarvestView
    decreases exchanges.len(),
{
    if exchanges.len() == 0 {
        harvest
    } else {
        match harvest {
            HarvestView::Threads(progress, wait) => spec_harvest_exchanges(
                spec_harvest_feed(
                    spec_on_thread_page(progress, wait, exchanges.first().page),
                    exchanges.first().listings,
                ),
                exchanges.drop_first(),
            ),
            other => other,
        }
    }
}

/// The harvest after everything the platform said about the video in work.
pub open spec fn spec_harvest_video(harvest: HarvestView, video: VideoTranscript) -> Result<
    HarvestView,
    HarvestError,
> {
    let after = spec_harvest_exchanges(harvest, video.exchanges);
    match (video.failure, after) {
        (Some(failure), HarvestView::Threads(progress, wait)) => spec_on_thread_failure(
            progress,
            wait,
            failure,
        ),
        _ => Ok(after),
    }
}

/// The harvest after the transcripts of `videos`, taken one by one for as
/// long as no error ends it.
pub open spec fn spec_harvest_videos(harvest: HarvestView, videos: Seq<VideoTranscript>) -> Result<
    HarvestView,
    HarvestError,
>
    decreases videos.len(),
{
    if videos.len() == 0 {
        Ok(harvest)
    } else {
        match spec_harvest_video(harvest, videos.first()) {
            Ok(next) => spec_harvest_videos(next, videos.drop_first()),
            Err(error) => Err(error),
        }
    }
}

/// The comments that the videos of `videos` come to, video by video, where
/// each of them comes to comments.
pub open spec fn spec_outcomes(videos: Seq<VideoTranscript>) -> Seq<Seq<ParentCommentView>> {
    Seq::new(videos.len(), |i: int| spec_video_comments(videos[i].exchanges))
}

/// Whether every transcript of `videos` is that of a video taken to its
/// end without a fatal failure.
pub open spec fn spec_all_harvested(videos: Seq<VideoTranscript>) -> bool {
    forall|i: int|
        0 <= i < videos.len() ==> (#[trigger] videos[i]).fits() && videos[i].outcome() is Ok
}

/// The harvest lists a playlist as the playlist walk does.
pub proof fn lemma_listing_follows_the_walk(walk: PlaylistWalkView, pages: Seq<PlaylistPageView>)
    requires
        spec_is_playlist_listing(pages),
        spec_pages_well_formed(pages),
    ensures
        spec_playlist_items(spec_listed_entries(pages)) is Some,
        spec_harvest_listing(HarvestView::Listing(walk), pages) == Ok::<HarvestView, HarvestError>(
            spec_next_video(
                walk.items + spec_playlist_items(spec_listed_entries(pages))->0,
                Seq::empty(),
            ),
        ),
    decreases pages.len(),
{
    lemma_playlist_run_from(walk, pages);
    let rest = pages.drop_first();
    if pages.len() > 1 {
        let next = spec_playlist_advance(walk, pages.first())->Ok_0->More_0;
        assert(spec_is_playlist_listing(rest) && spec_pages_well_formed(rest)) by {
            assert forall|i: int| 0 <= i < rest.len() implies {
                &&& ((#[trigger] rest[i]).next_page_token is Some <==> i < rest.len() - 1)
                &&& rest[i].items is Some
                &&& spec_playlist_items(rest[i].items->0) is Some
            } by {
                assert(rest[i] == pages[i + 1]);
            }
        }
        lemma_listing_follows_the_walk(next, rest);
        lemma_playlist_run_from(next, rest);
    } else {
        assert(spec_playlist_run(walk, pages) == spec_playlist_advance(walk, pages.first()));
        let after = spec_on_playlist_page(walk, pages.first())->Ok_0;
        assert(spec_harvest_listing(after, rest) == Ok::<HarvestView, HarvestError>(after));
    }
}

/// Pages of replies move the harvest as they move the video in work.
pub proof fn lemma_reply_pages_in_harvest(
    progress: ProgressView,
    wait: ReplyWaitView,
    pages: Seq<ReplyPageView>,
)
    ensures
        spec_harvest_reply_pages(HarvestView::Replies(progress, wait), pages) == spec_after_step(
            progress,
            spec_reply_pages(wait, pages),
        ),
    decreases pages.len(),
{
    if pages.len() > 0 {
        match spec_reply_page(wait, pages.first()) {
            CommentStepView::Replies(next) => {
                lemma_reply_pages_in_harvest(progress, next, pages.drop_first());
            },
            other => {
                let after = spec_after_step(progress, other);
                assert(!(after is Replies));
                assert(spec_harvest_reply_pages(after, pages.drop_first()) == after);
            },
        }
    }
}

/// The exchanges about a video whose thread listing goes on leave the
/// harvest waiting for the video's next page of threads, with the comments
/// of all pages so far.
pub proof fn lemma_exchanges_open(
    progress: ProgressView,
    wait: ThreadWaitView,
    exchanges: Seq<Exchange>,
)
    requires
        spec_is_open_thread_listing(exchanges),
        spec_all_answered(exchanges),
    ensures
        spec_harvest_exchanges(HarvestView::Threads(progress, wait), exchanges)
            == spec_after_step(progress, spec_video_run(wait, exchanges)),
        spec_video_run(wait, exchanges) is Threads,
    decreases exchanges.len(),
{
    lemma_video_run_open(wait, exchanges);
    if exchanges.len() > 0 {
        let first = exchanges.first();
        let rest = exchanges.drop_first();
        law_page_is_reconciled(wait, first.page, first.listings);
        let step = spec_thread_page(wait, first.page);
        let end = spec_feed(step, first.listings);
        assert(end is Threads);
        lemma_page_in_harvest(progress, step, first.listings);
        assert(spec_is_open_thread_listing(rest) && spec_all_answered(rest)) by {
            assert forall|i: int| 0 <= i < rest.len() implies {
                &&& (#[trigger] rest[i]).page.next_page_token is Some
                &&& spec_answers(spec_items(rest[i].page.items), rest[i].listings)
            } by {
                assert(rest[i] == exchanges[i + 1]);
            }
        }
        lemma_exchanges_open(progress, end->Threads_0, rest);
    }
}

/// The exchanges about a video whose thread listing is whole close the
/// video with the comments of all pages.
pub proof fn lemma_exchanges_whole(
    progress: ProgressView,
    wait: ThreadWaitView,
    exchanges: Seq<Exchange>,
)
    requires
        spec_is_thread_listing(exchanges),
        spec_all_answered(exchanges),
    ensures
        spec_harvest_exchanges(HarvestView::Threads(progress, wait), exchanges) == spec_video_done(
            progress,
            wait.comments + spec_video_comments(exchanges),
        ),
    decreases exchanges.len(),
{
    let first = exchanges.first();
    let rest = exchanges.drop_first();
    law_page_is_reconciled(wait, first.page, first.listings);
    let step = spec_thread_page(wait, first.page);
    let end = spec_feed(step, first.listings);
    let here = spec_reconciled(spec_items(first.page.items), first.listings);
    assert(end == spec_page_end(wait.video_id, wait.comments + here, first.page.next_page_token));
    lemma_page_in_harvest(progress, step, first.listings);
    if exchanges.len() == 1 {
        assert(spec_video_comments(rest) =~= Seq::empty());
        assert(wait.comments + here =~= wait.comments + spec_video_comments(exchanges));
        let after = spec_after_step(progress, end);
        assert(spec_harvest_exchanges(after, rest) == after);
    } else {
        assert(spec_is_thread_listing(rest) && spec_all_answered(rest)) by {
            assert forall|i: int| 0 <= i < rest.len() implies {
                &&& ((#[trigger] rest[i]).page.next_page_token is Some <==> i < rest.len() - 1)
                &&& spec_answers(spec_items(rest[i].page.items), rest[i].listings)
            } by {
                assert(rest[i] == exchanges[i + 1]);
            }
        }
        let next = end->Threads_0;
        lemma_exchanges_whole(progress, next, rest);
        assert(next.comments + spec_video_comments(rest) =~= wait.comments + spec_video_comments(
            exchanges,
        ));
    }
}

/// Reply listings that take a page of threads to its end move the harvest
/// as they move the video in work.
pub proof fn lemma_page_in_harvest(
    progress: ProgressView,
    step: CommentStepView,
    listings: Seq<Seq<ReplyPageView>>,
)
    requires
        !(spec_feed(step, listings) is Replies),
    ensures
        spec_harvest_feed(spec_after_step(progress, step), listings) == spec_after_step(
            progress,
            spec_feed(step, listings),
        ),
    decreases listings.len(),
{
    if listings.len() > 0 {
        match step {
            CommentStepView::Replies(wait) => {
                lemma_reply_pages_in_harvest(progress, wait, listings.first());
                let next = spec_reply_pages(wait, listings.first());
                let rest = listings.drop_first();
                if next is Replies {
                    lemma_page_in_harvest(progress, next, rest);
                } else {
                    let after = spec_after_step(progress, next);
                    assert(spec_feed(next, rest) == next);
                    if next is Done {
                        lemma_done_stays(progress, next->Done_0, rest);
                    } else {
                        assert(spec_harvest_feed(after, rest) == after);
                    }
                }
            },
            CommentStepView::Threads(_) => {},
            CommentStepView::Done(comments) => {
                lemma_done_stays(progress, comments, listings);
            },
        }
    }
}

/// Once a video is closed, reply listings move nothing: the harvest waits
/// for threads of the next video, or is complete.
pub proof fn lemma_done_stays(
    progress: ProgressView,
    comments: Seq<ParentCommentView>,
    listings: Seq<Seq<ReplyPageView>>,
)
    ensures
        spec_harvest_feed(spec_video_done(progress, comments), listings) == spec_video_done(
            progress,
            comments,
        ),
{
}

/// The transcript of a video that was taken to its end closes the video
/// with the comments it comes to, or ends the harvest with its error.
pub proof fn lemma_video_in_harvest(progress: ProgressView, video: VideoTranscript)
    requires
        video.fits(),
    ensures
        spec_harvest_video(
            HarvestView::Threads(progress, spec_thread_start(progress.current().video_id)),
            video,
        ) == match video.outcome() {
            Ok(comments) => Ok::<HarvestView, HarvestError>(spec_video_done(progress, comments)),
            Err(error) => Err::<HarvestView, HarvestError>(error),
        },
{
    let wait = spec_thread_start(progress.current().video_id);
    assert(wait.comments + spec_video_comments(video.exchanges) =~= spec_video_comments(
        video.exchanges,
    ));
    match video.failure {
        None => {
            lemma_exchanges_whole(progress, wait, video.exchanges);
            let done = spec_video_done(progress, spec_video_comments(video.exchanges));
            assert(spec_harvest_video(HarvestView::Threads(progress, wait), video) == Ok::<
                HarvestView,
                HarvestError,
            >(done));
        },
        Some(failure) => {
            lemma_exchanges_open(progress, wait, video.exchanges);
            lemma_video_run_open(wait, video.exchanges);
        },
    }
}

/// The transcripts of all videos that are left, each taken to its end
/// without a fatal failure, close those videos one after the other.
pub proof fn lemma_videos_in_harvest(
    items: Seq<PlaylistItemView>,
    finished: Seq<VideoView>,
    videos: Seq<VideoTranscript>,
)
    requires
        finished.len() + videos.len() == items.len(),
        spec_all_harvested(videos),
    ensures
        spec_harvest_videos(spec_next_video(items, finished), videos) == Ok::<
            HarvestView,
            HarvestError,
        >(spec_close_videos(spec_next_video(items, finished), spec_outcomes(videos))),
    decreases videos.len(),
{
    if videos.len() > 0 {
        let progress = ProgressView { items, videos: finished };
        let first = videos.first();
        let rest = videos.drop_first();
        assert(first == videos[0]);
        lemma_video_in_harvest(progress, first);
        let comments = spec_video_comments(first.exchanges);
        assert(first.outcome() == Ok::<Seq<ParentCommentView>, HarvestError>(comments));
        let closed = finished.push(spec_assemble(progress.current(), comments));
        assert(spec_all_harvested(rest)) by {
            assert forall|i: int| 0 <= i < rest.len() implies (#[trigger] rest[i]).fits()
                && rest[i].outcome() is Ok by {
                assert(rest[i] == videos[i + 1]);
            }
        }
        lemma_videos_in_harvest(items, closed, rest);
        assert(spec_outcomes(videos).first() == comments);
        assert(spec_outcomes(videos).drop_first() =~= spec_outcomes(rest));
    }
}

/// Completeness of the harvest: when the platform lists the uploads
/// playlist on any number of well-formed pages, and every video of it is
/// taken to its end, be it by the last page of its threads or by a request
/// that fails because comments are switched off, then the harvest is
/// complete after the last video, without an error. Its output holds one
/// result for each video of the playlist, in the playlist's order, under
/// the playlist's title and id, with the comments that the video's
/// transcript comes to. A video whose comments are switched off stands in
/// the output like any other, with the comments of the pages before the
/// failure: none, if its first request failed.
pub proof fn law_harvest_is_complete(
    playlist_id: Seq<char>,
    pages: Seq<PlaylistPageView>,
    videos: Seq<VideoTranscript>,
)
    requires
        spec_is_playlist_listing(pages),
        spec_pages_well_formed(pages),
        videos.len() == spec_listed_entries(pages).len(),
        spec_all_harvested(videos),
    ensures
        spec_playlist_items(spec_listed_entries(pages)) is Some,
        spec_harvest_listing(spec_harvest_start(playlist_id), pages) is Ok,
        spec_harvest_videos(
            spec_harvest_listing(spec_harvest_start(playlist_id), pages)->Ok_0,
            videos,
        ) == Ok::<HarvestView, HarvestError>(
            HarvestView::Finished(
                spec_export(
                    spec_playlist_items(spec_listed_entries(pages))->0,
                    spec_outcomes(videos),
                ),
            ),
        ),
{
    let walk = spec_playlist_start(playlist_id);
    lemma_listing_follows_the_walk(walk, pages);
    let items = spec_playlist_items(spec_listed_entries(pages))->0;
    assert(walk.items + items =~= items);
    lemma_playlist_items_pointwise(spec_listed_entries(pages));
    lemma_videos_in_harvest(items, Seq::empty(), videos);
    law_export_is_one_video_per_upload(items, spec_outcomes(videos));
}

/// A fatal failure ends the harvest: when the videos before have been taken
/// to their ends and the transcript of the video in work ends with a failed
/// request that is not forgiven, the harvest ends with that failure's
/// error, and nothing is left of the videos before.
pub proof fn law_fatal_failure_ends_the_harvest(
    items: Seq<PlaylistItemView>,
    before: Seq<VideoTranscript>,
    video: VideoTranscript,
)
    requires
        before.len() < items.len(),
        spec_all_harvested(before),
        video.fits(),
        video.outcome() is Err,
    ensures
        spec_harvest_videos(spec_next_video(items, Seq::empty()), before.push(video)) == Err::<
            HarvestView,
            HarvestError,
        >(video.outcome()->Err_0),
{
    lemma_fatal_failure_from(items, Seq::empty(), before, video);
}

/// A fatal failure ends the harvest, whatever was finished.
pub proof fn lemma_fatal_failure_from(
    items: Seq<PlaylistItemView>,
    finished: Seq<VideoView>,
    before: Seq<VideoTranscript>,
    video: VideoTranscript,
)
    requires
        finished.len() + before.len() < items.len(),
        spec_all_harvested(before),
        video.fits(),
        video.outcome() is Err,
    ensures
        spec_harvest_videos(spec_next_video(items, finished), before.push(video)) == Err::<
            HarvestView,
            HarvestError,
        >(video.outcome()->Err_0),
    decreases before.len(),
{
    let all = before.push(video);
    let progress = ProgressView { items, videos: finished };
    if before.len() == 0 {
        assert(all.first() == video);
        lemma_video_in_harvest(progress, video);
    } else {
        let first = before.first();
        assert(first == before[0]);
        assert(all.first() == first);
        assert(all.drop_first() =~= before.drop_first().push(video));
        lemma_video_in_harvest(progress, first);
        let comments = spec_video_comments(first.exchanges);
        assert(first.outcome() == Ok::<Seq<ParentCommentView>, HarvestError>(comments));
        let closed = finished.push(spec_assemble(progress.current(), comments));
        let rest = before.drop_first();
        assert(spec_all_harvested(rest)) by {
            assert forall|i: int| 0 <= i < rest.len() implies (#[trigger] rest[i]).fits()
                && rest[i].outcome() is Ok by {
                assert(rest[i] == before[i + 1]);
            }
        }
        lemma_fatal_failure_from(items, closed, rest, video);
    }
}

} // verus!
