//! What the harvest of one video's comments amounts to, whole.
//!
//! The steps of [`crate::threads`] are driven by responses that arrive one
//! at a time. This module says what they add up to once all of them are in:
//! for every valid thread one comment, in the platform's order, with the
//! embedded replies where they are complete and with the separately listed
//! ones where they are not. Everything here is specification and proof.

use crate::failure::{HarvestError, ThreadFailure};
use crate::model::ParentCommentView;
use crate::replies::{spec_is_reply_listing, spec_listed_replies, spec_valid_replies};
use crate::threads::{
    lemma_reply_pages_from, spec_plan, spec_reply_pages, spec_scan, spec_thread_failure,
    spec_thread_page, spec_thread_start, spec_top_level, CommentStepView, PlanView,
    ThreadWaitView,
};
use crate::wire::{spec_items, RawThreadView, ReplyPageView, ThreadPageView};
use vstd::prelude::*;

verus! {

/// The number of threads among `threads` whose replies are fetched
/// separately.
pub open spec fn spec_requests(threads: Seq<RawThreadView>) -> nat
    decreases threads.len(),
{
    if threads.len() == 0 {
        0
    } else {
        let rest = spec_requests(threads.drop_first());
        if spec_plan(threads.first()) is Fetch {
            rest + 1
        } else {
            rest
        }
    }
}

/// The comments that `threads` stand for, in order, when `listings` are the
/// reply listings of those threads whose replies are fetched separately, in
/// the order of the threads. A thread without a valid top-level comment
/// stands for nothing; a thread that is kept as it is stands for its plan's
/// comment; a thread whose replies are fetched stands for its top-level
/// comment with the valid replies of its listing.
pub open spec fn spec_reconciled(
    threads: Seq<RawThreadView>,
    listings: Seq<Seq<ReplyPageView>>,
) -> Seq<ParentCommentView>
    decreases threads.len(),
{
    if threads.len() == 0 {
        Seq::empty()
    } else {
        match spec_plan(threads.first()) {
            PlanView::Skip => spec_reconciled(threads.drop_first(), listings),
            PlanView::Keep(comment) => seq![comment] + spec_reconciled(
                threads.drop_first(),
                listings,
            ),
            PlanView::Fetch { comment, .. } => seq![
                comment.with_children(spec_valid_replies(spec_listed_replies(listings.first()))),
            ] + spec_reconciled(threads.drop_first(), listings.drop_first()),
        }
    }
}

/// The state after `listings`, handed over one after the other, each to the
/// request for replies that is open then, for as long as replies are wanted.
pub open spec fn spec_feed(
    step: CommentStepView,
    listings: Seq<Seq<ReplyPageView>>,
) -> CommentStepView
    decreases listings.len(),
{
    if listings.len() == 0 {
        step
    } else {
        match step {
            CommentStepView::Replies(wait) => spec_feed(
                spec_reply_pages(wait, listings.first()),
                listings.drop_first(),
            ),
            other => other,
        }
    }
}

/// The state at the end of a thread page.
pub open spec fn spec_page_end(
    video_id: Seq<char>,
    comments: Seq<ParentCommentView>,
    next_page_token: Option<Seq<char>>,
) -> CommentStepView {
    match next_page_token {
        Some(token) => CommentStepView::Threads(
            ThreadWaitView { video_id, page_token: Some(token), comments },
        ),
        None => CommentStepView::Done(comments),
    }
}

/// Whether `listings` holds one whole listing of replies for each of
/// `threads` whose replies are fetched separately.
pub open spec fn spec_answers(
    threads: Seq<RawThreadView>,
    listings: Seq<Seq<ReplyPageView>>,
) -> bool {
    &&& listings.len() == spec_requests(threads)
    &&& forall|i: int| 0 <= i < listings.len() ==> spec_is_reply_listing(#[trigger] listings[i])
}

/// One page of a video's threads together with the reply listings that the
/// platform gave while the page was worked through.
pub struct Exchange {
    pub page: ThreadPageView,
    pub listings: Seq<Seq<ReplyPageView>>,
}

/// The state after `exchanges`, taken one by one for as long as thread
/// pages are wanted.
pub open spec fn spec_video_run(wait: ThreadWaitView, exchanges: Seq<Exchange>) -> CommentStepView
    decreases exchanges.len(),
{
    if exchanges.len() == 0 {
        CommentStepView::Threads(wait)
    } else {
        match spec_feed(spec_thread_page(wait, exchanges.first().page), exchanges.first().listings) {
            CommentStepView::Threads(next) => spec_video_run(next, exchanges.drop_first()),
            other => other,
        }
    }
}

/// The comments that the thread pages of `exchanges` stand for, page after
/// page.
pub open spec fn spec_video_comments(exchanges: Seq<Exchange>) -> Seq<ParentCommentView>
    decreases exchanges.len(),
{
    if exchanges.len() == 0 {
        Seq::empty()
    } else {
        spec_reconciled(spec_items(exchanges.first().page.items), exchanges.first().listings)
            + spec_video_comments(exchanges.drop_first())
    }
}

/// Whether every exchange of `exchanges` answers each request for replies
/// of its page with a whole listing.
pub open spec fn spec_all_answered(exchanges: Seq<Exchange>) -> bool {
    forall|i: int|
        0 <= i < exchanges.len() ==> spec_answers(
            spec_items((#[trigger] exchanges[i]).page.items),
            exchanges[i].listings,
        )
}

/// Whether the thread pages of `exchanges` are a whole paged listing: at
/// least one page, of which the last, and only the last, names no next page.
pub open spec fn spec_is_thread_listing(exchanges: Seq<Exchange>) -> bool {
    &&& exchanges.len() > 0
    &&& forall|i: int|
        0 <= i < exchanges.len() ==> ((#[trigger] exchanges[i]).page.next_page_token is Some <==> i
            < exchanges.len() - 1)
}

/// Whether the thread pages of `exchanges` are the beginning of a paged
/// listing that goes on: every page names a next page.
pub open spec fn spec_is_open_thread_listing(exchanges: Seq<Exchange>) -> bool {
    forall|i: int|
        0 <= i < exchanges.len() ==> (#[trigger] exchanges[i]).page.next_page_token is Some
}

/// The page token that is due after `exchanges`, when `page_token` was due
/// before them.
pub open spec fn spec_token_after(
    page_token: Option<Seq<char>>,
    exchanges: Seq<Exchange>,
) -> Option<Seq<char>> {
    if exchanges.len() == 0 {
        page_token
    } else {
        exchanges.last().page.next_page_token
    }
}

/// A thread page worked through from `from` on, with every request for
/// replies answered by a whole listing, comes to its end, and has added to
/// the finished comments what its threads stand for.
pub proof fn lemma_page_from(
    video_id: Seq<char>,
    comments: Seq<ParentCommentView>,
    threads: Seq<RawThreadView>,
    from: nat,
    next_page_token: Option<Seq<char>>,
    listings: Seq<Seq<ReplyPageView>>,
)
    requires
        from <= threads.len(),
        spec_answers(threads.skip(from as int), listings),
    ensures
        spec_feed(spec_scan(video_id, comments, threads, from, next_page_token), listings)
            == spec_page_end(
            video_id,
            comments + spec_reconciled(threads.skip(from as int), listings),
            next_page_token,
        ),
    decreases threads.len() - from,
{
    let here = threads.skip(from as int);
    if from == threads.len() {
        assert(comments + spec_reconciled(here, listings) =~= comments);
    } else {
        let rest = threads.skip(from as int + 1);
        assert(here.first() == threads[from as int]);
        assert(here.drop_first() =~= rest);
        match spec_plan(threads[from as int]) {
            PlanView::Skip => {
                lemma_page_from(video_id, comments, threads, from + 1, next_page_token, listings);
            },
            PlanView::Keep(comment) => {
                lemma_page_from(
                    video_id,
                    comments.push(comment),
                    threads,
                    from + 1,
                    next_page_token,
                    listings,
                );
                assert(comments.push(comment) + spec_reconciled(rest, listings) =~= comments
                    + spec_reconciled(here, listings));
            },
            PlanView::Fetch { comment, parent_id } => {
                let wait = spec_scan(
                    video_id,
                    comments,
                    threads,
                    from,
                    next_page_token,
                )->Replies_0;
                let listing = listings.first();
                let later = listings.drop_first();
                assert(spec_is_reply_listing(listings[0]));
                assert(spec_answers(rest, later)) by {
                    assert forall|i: int| 0 <= i < later.len() implies spec_is_reply_listing(
                        #[trigger] later[i],
                    ) by {
                        assert(later[i] == listings[i + 1]);
                    }
                }
                lemma_reply_pages_from(wait, listing);
                let fetched = spec_valid_replies(spec_listed_replies(listing));
                assert(wait.open.children + (wait.walk.replies + fetched) =~= fetched);
                let finished = comments.push(comment.with_children(fetched));
                lemma_page_from(video_id, finished, threads, from + 1, next_page_token, later);
                assert(finished + spec_reconciled(rest, later) =~= comments + spec_reconciled(
                    here,
                    listings,
                ));
            },
        }
    }
}

/// Reconciliation of a page: a page of threads that is worked through with
/// every request for replies answered by a whole listing, however cut into
/// pages, comes to its end, and has then added to the finished comments
/// exactly the comments that its threads stand for, in the page's order.
/// Threads without a valid top-level comment leave no trace in them, and
/// the threads beside such a thread stand in them as they would without it.
pub proof fn law_page_is_reconciled(
    wait: ThreadWaitView,
    page: ThreadPageView,
    listings: Seq<Seq<ReplyPageView>>,
)
    requires
        spec_answers(spec_items(page.items), listings),
    ensures
        spec_feed(spec_thread_page(wait, page), listings) == spec_page_end(
            wait.video_id,
            wait.comments + spec_reconciled(spec_items(page.items), listings),
            page.next_page_token,
        ),
{
    let threads = spec_items(page.items);
    assert(threads.skip(0) =~= threads);
    lemma_page_from(wait.video_id, wait.comments, threads, 0, page.next_page_token, listings);
}

/// What the comments of a page are made of, thread by thread: the comment
/// of a thread depends on that thread and its own reply listing alone.
pub proof fn law_reconciled_thread_by_thread(
    thread: RawThreadView,
    threads: Seq<RawThreadView>,
    listings: Seq<Seq<ReplyPageView>>,
)
    ensures
        spec_top_level(thread) is None ==> spec_reconciled(seq![thread] + threads, listings)
            == spec_reconciled(threads, listings),
        spec_plan(thread) matches PlanView::Keep(comment) ==> spec_reconciled(
            seq![thread] + threads,
            listings,
        ) == seq![comment] + spec_reconciled(threads, listings),
        spec_plan(thread) matches PlanView::Fetch { comment, .. } ==> spec_reconciled(
            seq![thread] + threads,
            listings,
        ) == seq![
            comment.with_children(spec_valid_replies(spec_listed_replies(listings.first()))),
        ] + spec_reconciled(threads, listings.drop_first()),
{
    let all = seq![thread] + threads;
    assert(all.first() == thread);
    assert(all.drop_first() =~= threads);
}

/// A state that waits for threads and is fed thread pages that all name a
/// next page, each answered in full, waits for threads again, under the
/// token of the last page, with the comments of all pages added in order.
pub proof fn lemma_video_run_open(wait: ThreadWaitView, exchanges: Seq<Exchange>)
    requires
        spec_is_open_thread_listing(exchanges),
        spec_all_answered(exchanges),
    ensures
        spec_video_run(wait, exchanges) == CommentStepView::Threads(
            ThreadWaitView {
                video_id: wait.video_id,
                page_token: spec_token_after(wait.page_token, exchanges),
                comments: wait.comments + spec_video_comments(exchanges),
            },
        ),
    decreases exchanges.len(),
{
    if exchanges.len() == 0 {
        assert(wait.comments + spec_video_comments(exchanges) =~= wait.comments);
    } else {
        let first = exchanges.first();
        let rest = exchanges.drop_first();
        law_page_is_reconciled(wait, first.page, first.listings);
        let next = ThreadWaitView {
            video_id: wait.video_id,
            page_token: first.page.next_page_token,
            comments: wait.comments + spec_reconciled(spec_items(first.page.items), first.listings),
        };
        assert(spec_is_open_thread_listing(rest) && spec_all_answered(rest)) by {
            assert forall|i: int| 0 <= i < rest.len() implies {
                &&& (#[trigger] rest[i]).page.next_page_token is Some
                &&& spec_answers(spec_items(rest[i].page.items), rest[i].listings)
            } by {
                assert(rest[i] == exchanges[i + 1]);
            }
        }
        lemma_video_run_open(next, rest);
        assert(next.comments + spec_video_comments(rest) =~= wait.comments + spec_video_comments(
            exchanges,
        ));
        if rest.len() > 0 {
            assert(rest.last() == exchanges.last());
        }
    }
}

/// A state that waits for threads and is fed a whole listing of thread
/// pages, each answered in full, ends the video with the comments of all
/// pages added in order.
pub proof fn lemma_video_run_whole(wait: ThreadWaitView, exchanges: Seq<Exchange>)
    requires
        spec_is_thread_listing(exchanges),
        spec_all_answered(exchanges),
    ensures
        spec_video_run(wait, exchanges) == CommentStepView::Done(
            wait.comments + spec_video_comments(exchanges),
        ),
    decreases exchanges.len(),
{
    let first = exchanges.first();
    let rest = exchanges.drop_first();
    law_page_is_reconciled(wait, first.page, first.listings);
    let here = spec_reconciled(spec_items(first.page.items), first.listings);
    if exchanges.len() == 1 {
        assert(spec_video_comments(rest) =~= Seq::empty());
        assert(wait.comments + here =~= wait.comments + spec_video_comments(exchanges));
    } else {
        let next = ThreadWaitView {
            video_id: wait.video_id,
            page_token: first.page.next_page_token,
            comments: wait.comments + here,
        };
        assert(spec_is_thread_listing(rest) && spec_all_answered(rest)) by {
            assert forall|i: int| 0 <= i < rest.len() implies {
                &&& ((#[trigger] rest[i]).page.next_page_token is Some <==> i < rest.len() - 1)
                &&& spec_answers(spec_items(rest[i].page.items), rest[i].listings)
            } by {
                assert(rest[i] == exchanges[i + 1]);
            }
        }
        lemma_video_run_whole(next, rest);
        assert(next.comments + spec_video_comments(rest) =~= wait.comments + spec_video_comments(
            exchanges,
        ));
    }
}

/// Reconciliation of a video: when the platform lists the threads of a
/// video on any number of pages and answers every request for replies with
/// a whole listing, the harvest of the video ends with the last thread page
/// and returns, page after page and thread after thread, one comment for
/// every thread that has a valid top-level comment, each with its replies
/// reconciled.
pub proof fn law_video_is_reconciled(video_id: Seq<char>, exchanges: Seq<Exchange>)
    requires
        spec_is_thread_listing(exchanges),
        spec_all_answered(exchanges),
    ensures
        spec_video_run(spec_thread_start(video_id), exchanges) == CommentStepView::Done(
            spec_video_comments(exchanges),
        ),
{
    lemma_video_run_whole(spec_thread_start(video_id), exchanges);
    assert(Seq::<ParentCommentView>::empty() + spec_video_comments(exchanges)
        =~= spec_video_comments(exchanges));
}

/// Switched-off comments, whenever they show: when a request for threads
/// fails as a bad request with code 403 after any number of pages, the
/// video ends without an error with the comments of the pages before. When
/// the first request fails so, the video has no comments. Any other failure
/// at that point is an error.
pub proof fn law_disabled_video_keeps_what_came_before(
    video_id: Seq<char>,
    exchanges: Seq<Exchange>,
    failure: ThreadFailure,
)
    requires
        spec_is_open_thread_listing(exchanges),
        spec_all_answered(exchanges),
    ensures
        spec_video_run(spec_thread_start(video_id), exchanges) is Threads,
        failure == (ThreadFailure::BadRequest { code: Some(403) }) ==> spec_thread_failure(
            spec_video_run(spec_thread_start(video_id), exchanges)->Threads_0,
            failure,
        ) == Ok::<Seq<ParentCommentView>, HarvestError>(spec_video_comments(exchanges)),
        failure != (ThreadFailure::BadRequest { code: Some(403) }) ==> spec_thread_failure(
            spec_video_run(spec_thread_start(video_id), exchanges)->Threads_0,
            failure,
        ) is Err,
        exchanges.len() == 0 ==> spec_video_comments(exchanges) == Seq::<
            ParentCommentView,
        >::empty(),
{
    lemma_video_run_open(spec_thread_start(video_id), exchanges);
    assert(Seq::<ParentCommentView>::empty() + spec_video_comments(exchanges)
        =~= spec_video_comments(exchanges));
}

} // verus!
