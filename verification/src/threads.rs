//! The comments of one video: its threads page by page, and for every
//! thread the decision whether the replies embedded in it are all there are.
//!
//! The platform embeds only a bounded number of replies in a thread, as a
//! strict prefix of all of them. Beside that it reports how many replies the
//! thread has. So the embedded replies are complete exactly when their
//! number equals the reported total; on any mismatch the replies are
//! fetched separately and the embedded ones are not used.

use crate::failure::{spec_consequence, HarvestError, ThreadFailure, Consequence};
use crate::model::{lemma_deep_view_push, ParentComment, ParentCommentView};
use crate::replies::{
    lemma_reply_run_from, spec_is_reply_listing, spec_listed_replies, spec_reply_advance,
    spec_reply_run, spec_reply_start, spec_valid_replies, valid_replies, ReplyStep,
    ReplyStepView, ReplyWalk, ReplyWalkView,
};
use crate::request::{
    spec_reply_request, spec_thread_request, thread_request, ReplyRequest, ThreadRequest,
};
use crate::wire::{
    spec_items, RawCommentView, RawThread, RawThreadView, ReplyPage, ReplyPageView, ThreadPage,
    ThreadPageView,
};
use vstd::prelude::*;

verus! {

/// The top-level comment of a thread, without replies: it needs both a body
/// and an author.
pub open spec fn spec_top_level(thread: RawThreadView) -> Option<ParentCommentView> {
    match thread.snippet {
        Some(thread_snippet) => match thread_snippet.top_level_comment {
            Some(comment) => match comment.snippet {
                Some(snippet) => match (snippet.text_original, snippet.author_display_name) {
                    (Some(text), Some(author_name)) => Some(
                        ParentCommentView { text, author_name, children: Seq::empty() },
                    ),
                    _ => None,
                },
                None => None,
            },
            None => None,
        },
        None => None,
    }
}

/// The raw replies that a thread embeds, if it embeds a list of them.
pub open spec fn spec_embedded(thread: RawThreadView) -> Option<Seq<RawCommentView>> {
    match thread.replies {
        Some(replies) => replies.comments,
        None => None,
    }
}

/// The number of replies that a thread embeds: 0 if it embeds none.
pub open spec fn spec_contained_reply_count(thread: RawThreadView) -> nat {
    spec_items(spec_embedded(thread)).len()
}

/// The number of replies that the platform reports for a thread: 0 if it
/// reports none.
pub open spec fn spec_total_reply_count(thread: RawThreadView) -> nat {
    match thread.snippet {
        Some(snippet) => match snippet.total_reply_count {
            Some(total) => total as nat,
            None => 0,
        },
        None => 0,
    }
}

/// Whether a thread embeds all of its replies.
pub open spec fn spec_embeds_all_replies(thread: RawThreadView) -> bool {
    spec_contained_reply_count(thread) == spec_total_reply_count(thread)
}

/// What to do with one thread.
#[derive(Debug)]
pub enum Plan {
    /// The top-level comment lacks its body or its author: the thread is
    /// dropped, replies and all.
    Skip,
    /// The comment is complete as it stands.
    Keep(ParentComment),
    /// The replies to `comment` are to be fetched under `parent_id`.
    Fetch { comment: ParentComment, parent_id: String },
}

/// Mathematical value of a [`Plan`].
pub enum PlanView {
    Skip,
    Keep(ParentCommentView),
    Fetch { comment: ParentCommentView, parent_id: Seq<char> },
}

impl DeepView for Plan {
    type V = PlanView;

    open spec fn deep_view(&self) -> PlanView {
        match self {
            Plan::Skip => PlanView::Skip,
            Plan::Keep(comment) => PlanView::Keep(comment.deep_view()),
            Plan::Fetch { comment, parent_id } => PlanView::Fetch {
                comment: comment.deep_view(),
                parent_id: parent_id@,
            },
        }
    }
}

/// The plan for a thread. A thread whose top-level comment is not valid is
/// skipped. A thread that embeds all of its replies is kept with those of
/// them that are valid. Any other thread has its replies fetched under its
/// own id. A thread that has no id cannot be asked about: it is kept
/// without replies, and what it embeds is not used.
pub open spec fn spec_plan(thread: RawThreadView) -> PlanView {
    match spec_top_level(thread) {
        None => PlanView::Skip,
        Some(comment) => if spec_embeds_all_replies(thread) {
            PlanView::Keep(
                comment.with_children(spec_valid_replies(spec_items(spec_embedded(thread)))),
            )
        } else {
            match thread.id {
                Some(parent_id) => PlanView::Fetch { comment, parent_id },
                None => PlanView::Keep(comment),
            }
        },
    }
}

/// The top-level comment of a thread, without replies, or nothing if it
/// lacks its body or its author.
pub fn top_level(thread: &RawThread) -> (comment: Option<ParentComment>)
    ensures
        comment.deep_view() == spec_top_level(thread.deep_view()),
{
    let snippet = match &thread.snippet {
        Some(thread_snippet) => match &thread_snippet.top_level_comment {
            Some(comment) => match &comment.snippet {
                Some(snippet) => snippet,
                None => {
                    return None;
                },
            },
            None => {
                return None;
            },
        },
        None => {
            return None;
        },
    };
    match (&snippet.text_original, &snippet.author_display_name) {
        (Some(text), Some(author_name)) => {
            let comment = ParentComment {
                text: text.clone(),
                author_name: author_name.clone(),
                children: Vec::new(),
            };
            proof {
                assert(comment.children.deep_view() =~= Seq::empty());
            }
            Some(comment)
        },
        _ => None,
    }
}

/// The number of replies that a thread embeds.
pub fn contained_reply_count(thread: &RawThread) -> (count: usize)
    ensures
        count == spec_contained_reply_count(thread.deep_view()),
{
    match &thread.replies {
        Some(replies) => match &replies.comments {
            Some(comments) => comments.len(),
            None => 0,
        },
        None => 0,
    }
}

/// The number of replies that the platform reports for a thread.
pub fn total_reply_count(thread: &RawThread) -> (count: u32)
    ensures
        count == spec_total_reply_count(thread.deep_view()),
{
    match &thread.snippet {
        Some(snippet) => match snippet.total_reply_count {
            Some(total) => total,
            None => 0,
        },
        None => 0,
    }
}

/// Whether a thread embeds all of its replies.
pub fn embeds_all_replies(thread: &RawThread) -> (complete: bool)
    ensures
        complete == spec_embeds_all_replies(thread.deep_view()),
{
    contained_reply_count(thread) as u64 == total_reply_count(thread) as u64
}

/// Decides what to do with one thread.
pub fn plan(thread: &RawThread) -> (plan: Plan)
    ensures
        plan.deep_view() == spec_plan(thread.deep_view()),
{
    let mut comment = match top_level(thread) {
        Some(comment) => comment,
        None => {
            return Plan::Skip;
        },
    };
    if embeds_all_replies(thread) {
        match &thread.replies {
            Some(replies) => match &replies.comments {
                Some(embedded) => {
                    comment.children = valid_replies(embedded);
                },
                None => {},
            },
            None => {},
        }
        Plan::Keep(comment)
    } else {
        match &thread.id {
            Some(parent_id) => Plan::Fetch { comment, parent_id: parent_id.clone() },
            None => Plan::Keep(comment),
        }
    }
}

/// The comments of a video, waiting for a page of its threads.
///
/// The state asks for the page that `page_token` names (`None`: the first
/// page) of the threads of `video_id`. `comments` are those finished.
#[derive(Debug)]
pub struct ThreadWait {
    pub video_id: String,
    pub page_token: Option<String>,
    pub comments: Vec<ParentComment>,
}

/// Mathematical value of a [`ThreadWait`].
pub struct ThreadWaitView {
    pub video_id: Seq<char>,
    pub page_token: Option<Seq<char>>,
    pub comments: Seq<ParentCommentView>,
}

impl DeepView for ThreadWait {
    type V = ThreadWaitView;

    open spec fn deep_view(&self) -> ThreadWaitView {
        ThreadWaitView {
            video_id: self.video_id@,
            page_token: self.page_token.deep_view(),
            comments: self.comments.deep_view(),
        }
    }
}

/// The comments of a video, waiting for a page of the replies to one
/// comment.
///
/// `walk` says which page is asked for. `open` is the comment that the
/// replies belong to. It stands in the thread page `threads` just before
/// `resume_at`, where the page is taken up again once the replies are in.
/// `next_page_token` is the token that came with that thread page.
#[derive(Debug)]
pub struct ReplyWait {
    pub video_id: String,
    pub comments: Vec<ParentComment>,
    pub threads: Vec<RawThread>,
    pub resume_at: usize,
    pub next_page_token: Option<String>,
    pub open: ParentComment,
    pub walk: ReplyWalk,
}

/// Mathematical value of a [`ReplyWait`].
pub struct ReplyWaitView {
    pub video_id: Seq<char>,
    pub comments: Seq<ParentCommentView>,
    pub threads: Seq<RawThreadView>,
    pub resume_at: nat,
    pub next_page_token: Option<Seq<char>>,
    pub open: ParentCommentView,
    pub walk: ReplyWalkView,
}

impl DeepView for ReplyWait {
    type V = ReplyWaitView;

    open spec fn deep_view(&self) -> ReplyWaitView {
        ReplyWaitView {
            video_id: self.video_id@,
            comments: self.comments.deep_view(),
            threads: self.threads.deep_view(),
            resume_at: self.resume_at as nat,
            next_page_token: self.next_page_token.deep_view(),
            open: self.open.deep_view(),
            walk: self.walk.deep_view(),
        }
    }
}

/// Where the harvest of a video's comments stands after a response.
#[derive(Debug)]
pub enum CommentStep {
    /// A page of threads is wanted.
    Threads(ThreadWait),
    /// A page of replies is wanted.
    Replies(ReplyWait),
    /// The video's comments, complete.
    Done(Vec<ParentComment>),
}

/// Mathematical value of a [`CommentStep`].
pub enum CommentStepView {
    Threads(ThreadWaitView),
    Replies(ReplyWaitView),
    Done(Seq<ParentCommentView>),
}

impl DeepView for CommentStep {
    type V = CommentStepView;

    open spec fn deep_view(&self) -> CommentStepView {
        match self {
            CommentStep::Threads(wait) => CommentStepView::Threads(wait.deep_view()),
            CommentStep::Replies(wait) => CommentStepView::Replies(wait.deep_view()),
            CommentStep::Done(comments) => CommentStepView::Done(comments.deep_view()),
        }
    }
}

/// The state before the first page of a video's threads.
pub open spec fn spec_thread_start(video_id: Seq<char>) -> ThreadWaitView {
    ThreadWaitView { video_id, page_token: None, comments: Seq::empty() }
}

/// Works through the thread page `threads` from index `from` on, with
/// `comments` finished so far. Each thread is handled by its plan, in order.
/// The first thread whose replies are to be fetched interrupts the page.
/// At the end of the page its token, forwarded as it is, names the next
/// page; no token ends the video.
pub open spec fn spec_scan(
    video_id: Seq<char>,
    comments: Seq<ParentCommentView>,
    threads: Seq<RawThreadView>,
    from: nat,
    next_page_token: Option<Seq<char>>,
) -> CommentStepView
    decreases threads.len() - from,
{
    if from >= threads.len() {
        match next_page_token {
            Some(token) => CommentStepView::Threads(
                ThreadWaitView { video_id, page_token: Some(token), comments },
            ),
            None => CommentStepView::Done(comments),
        }
    } else {
        match spec_plan(threads[from as int]) {
            PlanView::Skip => spec_scan(video_id, comments, threads, from + 1, next_page_token),
            PlanView::Keep(comment) => spec_scan(
                video_id,
                comments.push(comment),
                threads,
                from + 1,
                next_page_token,
            ),
            PlanView::Fetch { comment, parent_id } => CommentStepView::Replies(
                ReplyWaitView {
                    video_id,
                    comments,
                    threads,
                    resume_at: from + 1,
                    next_page_token,
                    open: comment,
                    walk: spec_reply_start(parent_id),
                },
            ),
        }
    }
}

/// The step after a page of threads. A page without an item list holds no
/// thread.
pub open spec fn spec_thread_page(wait: ThreadWaitView, page: ThreadPageView) -> CommentStepView {
    spec_scan(wait.video_id, wait.comments, spec_items(page.items), 0, page.next_page_token)
}

/// The outcome of a failed request for a page of threads. Switched-off
/// comments end the video with the comments finished so far; anything else
/// is an error.
pub open spec fn spec_thread_failure(wait: ThreadWaitView, failure: ThreadFailure) -> Result<
    Seq<ParentCommentView>,
    HarvestError,
> {
    match spec_consequence(failure) {
        Consequence::Disabled => Ok(wait.comments),
        Consequence::Fatal(error) => Err(error),
    }
}

/// The step after a page of replies. While the replies go on, only the walk
/// moves. When they end, the open comment gets them, joins the finished
/// comments, and the interrupted thread page is taken up again.
pub open spec fn spec_reply_page(wait: ReplyWaitView, page: ReplyPageView) -> CommentStepView {
    match spec_reply_advance(wait.walk, page) {
        ReplyStepView::More(walk) => CommentStepView::Replies(
            ReplyWaitView {
                video_id: wait.video_id,
                comments: wait.comments,
                threads: wait.threads,
                resume_at: wait.resume_at,
                next_page_token: wait.next_page_token,
                open: wait.open,
                walk,
            },
        ),
        ReplyStepView::Done(replies) => spec_scan(
            wait.video_id,
            wait.comments.push(wait.open.with_children(wait.open.children + replies)),
            wait.threads,
            wait.resume_at,
            wait.next_page_token,
        ),
    }
}

/// The state after `pages` of replies, taken one by one for as long as
/// replies are wanted.
pub open spec fn spec_reply_pages(wait: ReplyWaitView, pages: Seq<ReplyPageView>) -> CommentStepView
    decreases pages.len(),
{
    if pages.len() == 0 {
        CommentStepView::Replies(wait)
    } else {
        match spec_reply_page(wait, pages.first()) {
            CommentStepView::Replies(next) => spec_reply_pages(next, pages.drop_first()),
            other => other,
        }
    }
}

/// Works through `threads` from index `from` on.
fn scan(
    video_id: String,
    comments: Vec<ParentComment>,
    threads: Vec<RawThread>,
    from: usize,
    next_page_token: Option<String>,
) -> (step: CommentStep)
    ensures
        step.deep_view() == spec_scan(
            video_id@,
            comments.deep_view(),
            threads.deep_view(),
            from as nat,
            next_page_token.deep_view(),
        ),
{
    let ghost goal = spec_scan(
        video_id@,
        comments.deep_view(),
        threads.deep_view(),
        from as nat,
        next_page_token.deep_view(),
    );
    let mut finished = comments;
    let mut i = from;
    while i < threads.len()
        invariant
            goal == spec_scan(
                video_id@,
                comments.deep_view(),
                threads.deep_view(),
                from as nat,
                next_page_token.deep_view(),
            ),
            goal == spec_scan(
                video_id@,
                finished.deep_view(),
                threads.deep_view(),
                i as nat,
                next_page_token.deep_view(),
            ),
        decreases threads.len() - i,
    {
        let ghost before = finished;
        proof {
            assert(threads.deep_view()[i as int] == threads[i as int].deep_view());
        }
        match plan(&threads[i]) {
            Plan::Skip => {},
            Plan::Keep(comment) => {
                finished.push(comment);
                proof {
                    lemma_deep_view_push(before, finished, comment);
                }
            },
            Plan::Fetch { comment, parent_id } => {
                return CommentStep::Replies(
                    ReplyWait {
                        video_id,
                        comments: finished,
                        threads,
                        resume_at: i + 1,
                        next_page_token,
                        open: comment,
                        walk: ReplyWalk::start(parent_id),
                    },
                );
            },
        }
        i += 1;
    }
    match next_page_token {
        Some(token) => CommentStep::Threads(
            ThreadWait { video_id, page_token: Some(token), comments: finished },
        ),
        None => CommentStep::Done(finished),
    }
}

impl ThreadWait {
    /// The state that asks for the first page of the threads of `video_id`.
    pub fn start(video_id: String) -> (wait: ThreadWait)
        ensures
            wait.deep_view() == spec_thread_start(video_id@),
    {
        let wait = ThreadWait { video_id, page_token: None, comments: Vec::new() };
        proof {
            assert(wait.comments.deep_view() =~= Seq::empty());
        }
        wait
    }

    /// The request that is due: the page of threads that the state stands
    /// before.
    pub fn request(&self) -> (request: ThreadRequest)
        ensures
            request.deep_view() == spec_thread_request(
                self.deep_view().video_id,
                self.deep_view().page_token,
            ),
    {
        thread_request(&self.video_id, &self.page_token)
    }

    /// Takes the page of threads that the state asked for.
    pub fn page(self, page: ThreadPage) -> (step: CommentStep)
        ensures
            step.deep_view() == spec_thread_page(self.deep_view(), page.deep_view()),
    {
        let threads = match page.items {
            Some(threads) => threads,
            None => {
                let threads: Vec<RawThread> = Vec::new();
                proof {
                    assert(threads.deep_view() =~= Seq::empty());
                }
                threads
            },
        };
        scan(self.video_id, self.comments, threads, 0, page.next_page_token)
    }

    /// Takes the failure of the request that the state asked for.
    pub fn failure(self, failure: ThreadFailure) -> (result: Result<
        Vec<ParentComment>,
        HarvestError,
    >)
        ensures
            match result {
                Ok(comments) => spec_thread_failure(self.deep_view(), failure) == Ok::<
                    Seq<ParentCommentView>,
                    HarvestError,
                >(comments.deep_view()),
                Err(error) => spec_thread_failure(self.deep_view(), failure) == Err::<
                    Seq<ParentCommentView>,
                    HarvestError,
                >(error),
            },
    {
        match failure.consequence() {
            Consequence::Disabled => Ok(self.comments),
            Consequence::Fatal(error) => Err(error),
        }
    }
}

impl ReplyWait {
    /// The request that is due: the page of replies that the walk stands
    /// before.
    pub fn request(&self) -> (request: ReplyRequest)
        ensures
            request.deep_view() == spec_reply_request(
                self.deep_view().walk.parent_id,
                self.deep_view().walk.page_token,
            ),
    {
        self.walk.request()
    }

    /// Takes the page of replies that the state asked for.
    pub fn page(self, page: ReplyPage) -> (step: CommentStep)
        ensures
            step.deep_view() == spec_reply_page(self.deep_view(), page.deep_view()),
    {
        let ReplyWait { video_id, comments, threads, resume_at, next_page_token, open, walk } =
            self;
        match walk.advance(page) {
            ReplyStep::More(walk) => CommentStep::Replies(
                ReplyWait { video_id, comments, threads, resume_at, next_page_token, open, walk },
            ),
            ReplyStep::Done(replies) => {
                let mut open = open;
                let mut comments = comments;
                let ghost children = open.children;
                let ghost fetched = replies;
                let ghost finished = comments;
                let mut replies = replies;
                open.children.append(&mut replies);
                proof {
                    assert(open.children.deep_view() =~= children.deep_view()
                        + fetched.deep_view());
                }
                comments.push(open);
                proof {
                    lemma_deep_view_push(finished, comments, open);
                }
                scan(video_id, comments, threads, resume_at, next_page_token)
            },
        }
    }
}

/// Use of the embedded replies: a thread with a valid top-level comment
/// whose embedded replies are as many as the platform reports is kept with
/// exactly the valid ones among the embedded replies, and no replies are
/// fetched for it.
pub proof fn law_complete_thread_uses_embedded_replies(thread: RawThreadView)
    requires
        spec_top_level(thread) is Some,
        spec_contained_reply_count(thread) == spec_total_reply_count(thread),
    ensures
        spec_plan(thread) == PlanView::Keep(
            spec_top_level(thread)->0.with_children(
                spec_valid_replies(spec_items(spec_embedded(thread))),
            ),
        ),
        !(spec_plan(thread) is Fetch),
{
}

/// A page on which every thread embeds all of its replies is worked through
/// without a request for replies.
pub proof fn law_complete_page_asks_for_no_replies(
    video_id: Seq<char>,
    comments: Seq<ParentCommentView>,
    threads: Seq<RawThreadView>,
    from: nat,
    next_page_token: Option<Seq<char>>,
)
    requires
        forall|i: int| from <= i < threads.len() ==> spec_embeds_all_replies(#[trigger] threads[i]),
    ensures
        !(spec_scan(video_id, comments, threads, from, next_page_token) is Replies),
    decreases threads.len() - from,
{
    if from < threads.len() {
        match spec_plan(threads[from as int]) {
            PlanView::Skip => {
                law_complete_page_asks_for_no_replies(
                    video_id,
                    comments,
                    threads,
                    from + 1,
                    next_page_token,
                );
            },
            PlanView::Keep(comment) => {
                law_complete_page_asks_for_no_replies(
                    video_id,
                    comments.push(comment),
                    threads,
                    from + 1,
                    next_page_token,
                );
            },
            PlanView::Fetch { .. } => {},
        }
    }
}

/// A state that waits for replies and is fed a whole listing of them takes
/// up its thread page again with the last page of the listing. The open
/// comment then has, after the replies it had, the valid replies of every
/// page of the listing, in order, on top of what the walk had gathered.
pub proof fn lemma_reply_pages_from(wait: ReplyWaitView, pages: Seq<ReplyPageView>)
    requires
        spec_is_reply_listing(pages),
    ensures
        spec_reply_pages(wait, pages) == spec_scan(
            wait.video_id,
            wait.comments.push(
                wait.open.with_children(
                    wait.open.children + (wait.walk.replies + spec_valid_replies(
                        spec_listed_replies(pages),
                    )),
                ),
            ),
            wait.threads,
            wait.resume_at,
            wait.next_page_token,
        ),
    decreases pages.len(),
{
    lemma_reply_run_from(wait.walk, pages);
    let rest = pages.drop_first();
    if pages.len() > 1 {
        let next = spec_reply_page(wait, pages.first())->Replies_0;
        assert(spec_is_reply_listing(rest)) by {
            assert forall|i: int| 0 <= i < rest.len() implies ((#[trigger] rest[i]).next_page_token
                is Some <==> i < rest.len() - 1) by {
                assert(rest[i] == pages[i + 1]);
            }
        }
        lemma_reply_pages_from(next, rest);
        lemma_reply_run_from(next.walk, rest);
    } else {
        assert(spec_reply_run(wait.walk, pages) == spec_reply_advance(wait.walk, pages.first()));
        assert(rest.len() == 0);
        match spec_reply_page(wait, pages.first()) {
            CommentStepView::Replies(next) => {
                assert(spec_reply_pages(next, rest) == CommentStepView::Replies(next));
            },
            _ => {},
        }
    }
}

/// Completion of the replies: a thread with a valid top-level comment and an
/// id, whose embedded replies are not as many as the platform reports,
/// interrupts its page for a fetch of its replies under its id. Once the
/// whole listing of them is in, however it is cut into pages, the comment
/// stands in the output with the valid replies of all pages of the listing,
/// in the platform's order, and with none of the embedded ones; the page is
/// then taken up after the thread.
pub proof fn law_incomplete_thread_gets_every_reply(
    video_id: Seq<char>,
    comments: Seq<ParentCommentView>,
    threads: Seq<RawThreadView>,
    from: nat,
    next_page_token: Option<Seq<char>>,
    pages: Seq<ReplyPageView>,
)
    requires
        from < threads.len(),
        spec_top_level(threads[from as int]) is Some,
        threads[from as int].id is Some,
        spec_contained_reply_count(threads[from as int]) != spec_total_reply_count(
            threads[from as int],
        ),
        spec_is_reply_listing(pages),
    ensures
        spec_scan(video_id, comments, threads, from, next_page_token) is Replies,
        spec_scan(video_id, comments, threads, from, next_page_token)->Replies_0.walk
            == spec_reply_start(threads[from as int].id->0),
        spec_reply_pages(
            spec_scan(video_id, comments, threads, from, next_page_token)->Replies_0,
            pages,
        ) == spec_scan(
            video_id,
            comments.push(
                spec_top_level(threads[from as int])->0.with_children(
                    spec_valid_replies(spec_listed_replies(pages)),
                ),
            ),
            threads,
            from + 1,
            next_page_token,
        ),
{
    let wait = spec_scan(video_id, comments, threads, from, next_page_token)->Replies_0;
    lemma_reply_pages_from(wait, pages);
    let listed = spec_valid_replies(spec_listed_replies(pages));
    assert(wait.open.children + (wait.walk.replies + listed) =~= listed);
}

/// Drop of malformed comments: a thread whose top-level comment lacks its
/// body or its author is skipped, whatever else it holds, and no replies
/// are fetched for it. The page goes on behind it as if it were not there,
/// so the threads beside it are handled as they would be without it.
pub proof fn law_malformed_thread_is_dropped(
    video_id: Seq<char>,
    comments: Seq<ParentCommentView>,
    threads: Seq<RawThreadView>,
    from: nat,
    next_page_token: Option<Seq<char>>,
)
    requires
        from < threads.len(),
        spec_top_level(threads[from as int]) is None,
    ensures
        spec_plan(threads[from as int]) == PlanView::Skip,
        spec_scan(video_id, comments, threads, from, next_page_token) == spec_scan(
            video_id,
            comments,
            threads,
            from + 1,
            next_page_token,
        ),
{
}

/// Switched-off comments: when the request for a page of a video's threads
/// fails as a bad request with code 403, the video ends without an error,
/// with the comments finished so far. On the first page those are none.
pub proof fn law_disabled_comments_end_the_video(wait: ThreadWaitView)
    ensures
        spec_thread_failure(wait, ThreadFailure::BadRequest { code: Some(403) }) == Ok::<
            Seq<ParentCommentView>,
            HarvestError,
        >(wait.comments),
        spec_thread_start(wait.video_id).comments == Seq::<ParentCommentView>::empty(),
{
}

/// Any other failure is fatal: a bad request with another code, a bad
/// request whose error cannot be read, and every failure that is no bad
/// request end the video with an error, whatever was finished.
pub proof fn law_other_failures_are_fatal(wait: ThreadWaitView, failure: ThreadFailure)
    requires
        failure != (ThreadFailure::BadRequest { code: Some(403) }),
    ensures
        spec_thread_failure(wait, failure) is Err,
        failure matches ThreadFailure::BadRequest { code: Some(code) } ==> spec_thread_failure(
            wait,
            failure,
        ) == Err::<Seq<ParentCommentView>, HarvestError>(HarvestError::BadRequest { code }),
{
}

} // verus!
