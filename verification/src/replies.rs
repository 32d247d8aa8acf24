//! Replies: which raw replies count, and the paged fetch of all replies to
//! one top-level comment.

use crate::model::{lemma_deep_view_push, ChildComment, ChildCommentView};
use crate::request::{reply_request, spec_reply_request, ReplyRequest};
use crate::wire::{spec_items, RawComment, RawCommentView, ReplyPage, ReplyPageView};
use vstd::prelude::*;

verus! {

/// The reply that `raw` stands for: it needs both a body and an author.
pub open spec fn spec_valid_reply(raw: RawCommentView) -> Option<ChildCommentView> {
    match raw.snippet {
        Some(snippet) => match (snippet.author_display_name, snippet.text_original) {
            (Some(author_name), Some(text)) => Some(ChildCommentView { text, author_name }),
            _ => None,
        },
        None => None,
    }
}

/// The replies among `raws`, in order. A raw reply without body or author
/// leaves no trace and does not disturb its neighbours.
pub open spec fn spec_valid_replies(raws: Seq<RawCommentView>) -> Seq<ChildCommentView>
    decreases raws.len(),
{
    if raws.len() == 0 {
        Seq::empty()
    } else {
        let earlier = spec_valid_replies(raws.drop_last());
        match spec_valid_reply(raws.last()) {
            Some(reply) => earlier.push(reply),
            None => earlier,
        }
    }
}

/// Validation goes through a concatenation piece by piece.
pub proof fn lemma_valid_replies_concat(a: Seq<RawCommentView>, b: Seq<RawCommentView>)
    ensures
        spec_valid_replies(a + b) == spec_valid_replies(a) + spec_valid_replies(b),
    decreases b.len(),
{
    if b.len() == 0 {
        assert(a + b =~= a);
    } else {
        assert((a + b).drop_last() =~= a + b.drop_last());
        assert((a + b).last() == b.last());
        lemma_valid_replies_concat(a, b.drop_last());
        assert(spec_valid_replies(a + b) =~= spec_valid_replies(a) + spec_valid_replies(b));
    }
}

/// Validation never adds a reply.
pub proof fn lemma_valid_replies_len(raws: Seq<RawCommentView>)
    ensures
        spec_valid_replies(raws).len() <= raws.len(),
        (forall|i: int| 0 <= i < raws.len() ==> spec_valid_reply(#[trigger] raws[i]) is Some)
            ==> spec_valid_replies(raws).len() == raws.len(),
    decreases raws.len(),
{
    if raws.len() > 0 {
        let earlier = raws.drop_last();
        lemma_valid_replies_len(earlier);
        assert(forall|i: int| 0 <= i < earlier.len() ==> earlier[i] == raws[i]);
    }
}

/// Turns a raw reply into a reply, or drops it.
pub fn valid_reply(raw: &RawComment) -> (reply: Option<ChildComment>)
    ensures
        reply.deep_view() == spec_valid_reply(raw.deep_view()),
{
    match &raw.snippet {
        Some(snippet) => match (&snippet.author_display_name, &snippet.text_original) {
            (Some(author_name), Some(text)) => Some(
                ChildComment { text: text.clone(), author_name: author_name.clone() },
            ),
            _ => None,
        },
        None => None,
    }
}

/// Appends to `replies` the replies among `raws`, in order.
pub fn extend_with_valid(replies: &mut Vec<ChildComment>, raws: &Vec<RawComment>)
    ensures
        final(replies).deep_view() == old(replies).deep_view() + spec_valid_replies(
            raws.deep_view(),
        ),
{
    let ghost all = raws.deep_view();
    let mut i: usize = 0;
    while i < raws.len()
        invariant
            i <= raws.len(),
            all == raws.deep_view(),
            replies.deep_view() == old(replies).deep_view() + spec_valid_replies(
                all.take(i as int),
            ),
        decreases raws.len() - i,
    {
        proof {
            assert(all.take(i + 1).drop_last() =~= all.take(i as int));
            assert(all.take(i + 1).last() == raws[i as int].deep_view());
        }
        let ghost before = *replies;
        match valid_reply(&raws[i]) {
            Some(reply) => {
                replies.push(reply);
                proof {
                    lemma_deep_view_push(before, *replies, reply);
                    assert(replies.deep_view() =~= old(replies).deep_view() + spec_valid_replies(
                        all.take(i + 1),
                    ));
                }
            },
            None => {},
        }
        i += 1;
    }
    proof {
        assert(all.take(raws.len() as int) =~= all);
    }
}

/// The replies among `raws`, in order.
pub fn valid_replies(raws: &Vec<RawComment>) -> (replies: Vec<ChildComment>)
    ensures
        replies.deep_view() == spec_valid_replies(raws.deep_view()),
{
    let mut replies: Vec<ChildComment> = Vec::new();
    extend_with_valid(&mut replies, raws);
    proof {
        assert(replies.deep_view() =~= spec_valid_replies(raws.deep_view()));
    }
    replies
}

/// The fetch of all replies to one top-level comment, between two pages.
///
/// The walk asks for the page that `page_token` names (`None`: the first
/// page) of the replies to `parent_id`. [`ReplyWalk::advance`] takes the
/// page to the next step.
#[derive(Debug)]
pub struct ReplyWalk {
    pub parent_id: String,
    pub page_token: Option<String>,
    pub replies: Vec<ChildComment>,
}

/// Mathematical value of a [`ReplyWalk`].
pub struct ReplyWalkView {
    pub parent_id: Seq<char>,
    pub page_token: Option<Seq<char>>,
    pub replies: Seq<ChildCommentView>,
}

impl DeepView for ReplyWalk {
    type V = ReplyWalkView;

    open spec fn deep_view(&self) -> ReplyWalkView {
        ReplyWalkView {
            parent_id: self.parent_id@,
            page_token: self.page_token.deep_view(),
            replies: self.replies.deep_view(),
        }
    }
}

/// What follows a page of replies: another request, or the full list.
#[derive(Debug)]
pub enum ReplyStep {
    More(ReplyWalk),
    Done(Vec<ChildComment>),
}

/// Mathematical value of a [`ReplyStep`].
pub enum ReplyStepView {
    More(ReplyWalkView),
    Done(Seq<ChildCommentView>),
}

impl DeepView for ReplyStep {
    type V = ReplyStepView;

    open spec fn deep_view(&self) -> ReplyStepView {
        match self {
            ReplyStep::More(walk) => ReplyStepView::More(walk.deep_view()),
            ReplyStep::Done(replies) => ReplyStepView::Done(replies.deep_view()),
        }
    }
}

/// The walk before its first page.
pub open spec fn spec_reply_start(parent_id: Seq<char>) -> ReplyWalkView {
    ReplyWalkView { parent_id, page_token: None, replies: Seq::empty() }
}

/// One step of the walk: the page's replies are added to those gathered, and
/// the page's token, forwarded as it is, names the next page. No token ends
/// the walk; an empty token does not.
pub open spec fn spec_reply_advance(walk: ReplyWalkView, page: ReplyPageView) -> ReplyStepView {
    let replies = walk.replies + spec_valid_replies(spec_items(page.items));
    match page.next_page_token {
        Some(token) => ReplyStepView::More(
            ReplyWalkView { parent_id: walk.parent_id, page_token: Some(token), replies },
        ),
        None => ReplyStepView::Done(replies),
    }
}

/// The walk after `pages`, taken one by one for as long as it goes on.
pub open spec fn spec_reply_run(walk: ReplyWalkView, pages: Seq<ReplyPageView>) -> ReplyStepView
    decreases pages.len(),
{
    if pages.len() == 0 {
        ReplyStepView::More(walk)
    } else {
        match spec_reply_advance(walk, pages.first()) {
            ReplyStepView::More(next) => spec_reply_run(next, pages.drop_first()),
            ReplyStepView::Done(replies) => ReplyStepView::Done(replies),
        }
    }
}

/// Whether `pages` is a whole paged listing: at least one page, of which
/// the last, and only the last, names no next page.
pub open spec fn spec_is_reply_listing(pages: Seq<ReplyPageView>) -> bool {
    &&& pages.len() > 0
    &&& forall|i: int|
        0 <= i < pages.len() ==> ((#[trigger] pages[i]).next_page_token is Some <==> i
            < pages.len() - 1)
}

/// The raw replies of all `pages`, one page after the other.
pub open spec fn spec_listed_replies(pages: Seq<ReplyPageView>) -> Seq<RawCommentView>
    decreases pages.len(),
{
    if pages.len() == 0 {
        Seq::empty()
    } else {
        spec_items(pages.first().items) + spec_listed_replies(pages.drop_first())
    }
}

impl ReplyWalk {
    /// The walk that asks for the first page of the replies to `parent_id`.
    pub fn start(parent_id: String) -> (walk: ReplyWalk)
        ensures
            walk.deep_view() == spec_reply_start(parent_id@),
    {
        let walk = ReplyWalk { parent_id, page_token: None, replies: Vec::new() };
        proof {
            assert(walk.replies.deep_view() =~= Seq::empty());
        }
        walk
    }

    /// The request that is due: the page that the walk stands before.
    pub fn request(&self) -> (request: ReplyRequest)
        ensures
            request.deep_view() == spec_reply_request(
                self.deep_view().parent_id,
                self.deep_view().page_token,
            ),
    {
        reply_request(&self.parent_id, &self.page_token)
    }

    /// Takes the page that the walk asked for.
    pub fn advance(self, page: ReplyPage) -> (step: ReplyStep)
        ensures
            step.deep_view() == spec_reply_advance(self.deep_view(), page.deep_view()),
    {
        let mut replies = self.replies;
        match &page.items {
            Some(items) => {
                extend_with_valid(&mut replies, items);
            },
            None => {
                proof {
                    assert(replies.deep_view() =~= replies.deep_view() + spec_valid_replies(
                        Seq::empty(),
                    ));
                }
            },
        }
        match page.next_page_token {
            Some(token) => ReplyStep::More(
                ReplyWalk { parent_id: self.parent_id, page_token: Some(token), replies },
            ),
            None => ReplyStep::Done(replies),
        }
    }
}

/// A walk that is fed a whole listing ends with the last page, and has then
/// gathered the replies of every page, in order, on top of what it had.
pub proof fn lemma_reply_run_from(walk: ReplyWalkView, pages: Seq<ReplyPageView>)
    requires
        spec_is_reply_listing(pages),
    ensures
        spec_reply_run(walk, pages) == ReplyStepView::Done(
            walk.replies + spec_valid_replies(spec_listed_replies(pages)),
        ),
    decreases pages.len(),
{
    let first = spec_items(pages.first().items);
    let rest = pages.drop_first();
    if pages.len() == 1 {
        assert(spec_listed_replies(rest) =~= Seq::empty());
        assert(spec_listed_replies(pages) =~= first);
    } else {
        let next = spec_reply_advance(walk, pages.first())->More_0;
        assert(spec_is_reply_listing(rest)) by {
            assert forall|i: int| 0 <= i < rest.len() implies ((#[trigger] rest[i]).next_page_token
                is Some <==> i < rest.len() - 1) by {
                assert(rest[i] == pages[i + 1]);
            }
        }
        lemma_reply_run_from(next, rest);
        lemma_valid_replies_concat(first, spec_listed_replies(rest));
        assert(next.replies + spec_valid_replies(spec_listed_replies(rest)) =~= walk.replies
            + spec_valid_replies(spec_listed_replies(pages)));
    }
}

/// Completeness of the separate fetch: however the platform cuts the replies
/// to a comment into pages, the walk over the whole listing returns the
/// replies of all pages in the platform's order, less those that lack a body
/// or an author. It returns as many replies as the platform listed exactly
/// when none of them lacks either.
pub proof fn law_reply_walk_gathers_every_page(parent_id: Seq<char>, pages: Seq<ReplyPageView>)
    requires
        spec_is_reply_listing(pages),
    ensures
        spec_reply_run(spec_reply_start(parent_id), pages) == ReplyStepView::Done(
            spec_valid_replies(spec_listed_replies(pages)),
        ),
        spec_valid_replies(spec_listed_replies(pages)).len() <= spec_listed_replies(pages).len(),
        (forall|i: int|
            0 <= i < spec_listed_replies(pages).len() ==> spec_valid_reply(
                #[trigger] spec_listed_replies(pages)[i],
            ) is Some) ==> spec_valid_replies(spec_listed_replies(pages)).len()
            == spec_listed_replies(pages).len(),
{
    lemma_reply_run_from(spec_reply_start(parent_id), pages);
    lemma_valid_replies_len(spec_listed_replies(pages));
    assert(Seq::<ChildCommentView>::empty() + spec_valid_replies(spec_listed_replies(pages))
        =~= spec_valid_replies(spec_listed_replies(pages)));
}

} // verus!
