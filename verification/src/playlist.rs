//! The playlist walk: every video of a playlist, in the playlist's order.

use crate::failure::{spec_result_view, HarvestError};
use crate::model::{lemma_deep_view_push, PlaylistItem, PlaylistItemView};
use crate::request::{playlist_request, spec_playlist_request, PlaylistRequest};
use crate::wire::{
    spec_items, PlaylistPage, PlaylistPageView, RawPlaylistItem, RawPlaylistItemView,
};
use vstd::prelude::*;

verus! {

/// The video that a playlist entry names: it needs a video id and a title.
pub open spec fn spec_playlist_item(raw: RawPlaylistItemView) -> Option<PlaylistItemView> {
    match (raw.content_details, raw.snippet) {
        (Some(details), Some(snippet)) => match (details.video_id, snippet.title) {
            (Some(video_id), Some(title)) => Some(PlaylistItemView { title, video_id }),
            _ => None,
        },
        _ => None,
    }
}

/// The videos that `raws` name, in order; `None` if an entry names none.
/// An entry without id or title is not skipped: it spoils the list.
pub open spec fn spec_playlist_items(raws: Seq<RawPlaylistItemView>) -> Option<
    Seq<PlaylistItemView>,
>
    decreases raws.len(),
{
    if raws.len() == 0 {
        Some(Seq::empty())
    } else {
        match (spec_playlist_items(raws.drop_last()), spec_playlist_item(raws.last())) {
            (Some(earlier), Some(item)) => Some(earlier.push(item)),
            _ => None,
        }
    }
}

/// The walk of a playlist, between two pages.
///
/// The walk asks for the page that `page_token` names (`None`: the first
/// page) of the playlist `playlist_id`. [`PlaylistWalk::advance`] takes the
/// page to the next step.
#[derive(Debug)]
pub struct PlaylistWalk {
    pub playlist_id: String,
    pub page_token: Option<String>,
    pub items: Vec<PlaylistItem>,
}

/// Mathematical value of a [`PlaylistWalk`].
pub struct PlaylistWalkView {
    pub playlist_id: Seq<char>,
    pub page_token: Option<Seq<char>>,
    pub items: Seq<PlaylistItemView>,
}

impl DeepView for PlaylistWalk {
    type V = PlaylistWalkView;

    open spec fn deep_view(&self) -> PlaylistWalkView {
        PlaylistWalkView {
            playlist_id: self.playlist_id@,
            page_token: self.page_token.deep_view(),
            items: self.items.deep_view(),
        }
    }
}

/// What follows a playlist page: another request, or the full list.
#[derive(Debug)]
pub enum PlaylistStep {
    More(PlaylistWalk),
    Done(Vec<PlaylistItem>),
}

/// Mathematical value of a [`PlaylistStep`].
pub enum PlaylistStepView {
    More(PlaylistWalkView),
    Done(Seq<PlaylistItemView>),
}

impl DeepView for PlaylistStep {
    type V = PlaylistStepView;

    open spec fn deep_view(&self) -> PlaylistStepView {
        match self {
            PlaylistStep::More(walk) => PlaylistStepView::More(walk.deep_view()),
            PlaylistStep::Done(items) => PlaylistStepView::Done(items.deep_view()),
        }
    }
}

/// The walk before its first page.
pub open spec fn spec_playlist_start(playlist_id: Seq<char>) -> PlaylistWalkView {
    PlaylistWalkView { playlist_id, page_token: None, items: Seq::empty() }
}

/// One step of the walk. A page without an item list, or with an entry that
/// lacks its video id or title, fails the walk. Otherwise the page's videos
/// are added to those gathered, and the page's token, forwarded as it is,
/// names the next page. No token ends the walk; an empty token does not.
pub open spec fn spec_playlist_advance(walk: PlaylistWalkView, page: PlaylistPageView) -> Result<
    PlaylistStepView,
    HarvestError,
> {
    match page.items {
        None => Err(HarvestError::MissingPlaylistItems),
        Some(raws) => match spec_playlist_items(raws) {
            None => Err(HarvestError::MalformedPlaylistItem),
            Some(found) => {
                let items = walk.items + found;
                match page.next_page_token {
                    Some(token) => Ok(
                        PlaylistStepView::More(
                            PlaylistWalkView {
                                playlist_id: walk.playlist_id,
                                page_token: Some(token),
                                items,
                            },
                        ),
                    ),
                    None => Ok(PlaylistStepView::Done(items)),
                }
            },
        },
    }
}

/// The walk after `pages`, taken one by one for as long as it goes on.
pub open spec fn spec_playlist_run(walk: PlaylistWalkView, pages: Seq<PlaylistPageView>) -> Result<
    PlaylistStepView,
    HarvestError,
>
    decreases pages.len(),
{
    if pages.len() == 0 {
        Ok(PlaylistStepView::More(walk))
    } else {
        match spec_playlist_advance(walk, pages.first()) {
            Ok(PlaylistStepView::More(next)) => spec_playlist_run(next, pages.drop_first()),
            other => other,
        }
    }
}

/// Whether `pages` is a whole paged listing: at least one page, of which
/// the last, and only the last, names no next page.
pub open spec fn spec_is_playlist_listing(pages: Seq<PlaylistPageView>) -> bool {
    &&& pages.len() > 0
    &&& forall|i: int|
        0 <= i < pages.len() ==> ((#[trigger] pages[i]).next_page_token is Some <==> i
            < pages.len() - 1)
}

/// The entries of all `pages`, one page after the other.
pub open spec fn spec_listed_entries(pages: Seq<PlaylistPageView>) -> Seq<RawPlaylistItemView>
    decreases pages.len(),
{
    if pages.len() == 0 {
        Seq::empty()
    } else {
        spec_items(pages.first().items) + spec_listed_entries(pages.drop_first())
    }
}

/// Whether every page of `pages` has an item list in which every entry
/// names a video.
pub open spec fn spec_pages_well_formed(pages: Seq<PlaylistPageView>) -> bool {
    forall|i: int|
        0 <= i < pages.len() ==> {
            &&& (#[trigger] pages[i]).items is Some
            &&& spec_playlist_items(pages[i].items->0) is Some
        }
}

/// The video that a playlist entry names, or the reason why it names none.
pub fn playlist_item(raw: &RawPlaylistItem) -> (result: Result<PlaylistItem, HarvestError>)
    ensures
        match spec_playlist_item(raw.deep_view()) {
            Some(item) => spec_result_view(result) == Ok::<PlaylistItemView, HarvestError>(item),
            None => result == Err::<PlaylistItem, HarvestError>(
                HarvestError::MalformedPlaylistItem,
            ),
        },
{
    match (&raw.content_details, &raw.snippet) {
        (Some(details), Some(snippet)) => match (&details.video_id, &snippet.title) {
            (Some(video_id), Some(title)) => Ok(
                PlaylistItem { title: title.clone(), video_id: video_id.clone() },
            ),
            _ => Err(HarvestError::MalformedPlaylistItem),
        },
        _ => Err(HarvestError::MalformedPlaylistItem),
    }
}

impl PlaylistWalk {
    /// The walk that asks for the first page of the playlist `playlist_id`.
    pub fn start(playlist_id: String) -> (walk: PlaylistWalk)
        ensures
            walk.deep_view() == spec_playlist_start(playlist_id@),
    {
        let walk = PlaylistWalk { playlist_id, page_token: None, items: Vec::new() };
        proof {
            assert(walk.items.deep_view() =~= Seq::empty());
        }
        walk
    }

    /// The request that is due: the page that the walk stands before.
    pub fn request(&self) -> (request: PlaylistRequest)
        ensures
            request.deep_view() == spec_playlist_request(
                self.deep_view().playlist_id,
                self.deep_view().page_token,
            ),
    {
        playlist_request(&self.playlist_id, &self.page_token)
    }

    /// Takes the page that the walk asked for.
    pub fn advance(self, page: PlaylistPage) -> (result: Result<PlaylistStep, HarvestError>)
        ensures
            spec_result_view(result) == spec_playlist_advance(self.deep_view(), page.deep_view()),
    {
        let mut items = self.items;
        let ghost gathered = items.deep_view();
        let raws = match &page.items {
            Some(raws) => raws,
            None => {
                return Err(HarvestError::MissingPlaylistItems);
            },
        };
        let ghost all = raws.deep_view();
        let mut i: usize = 0;
        while i < raws.len()
            invariant
                i <= raws.len(),
                all == raws.deep_view(),
                page.deep_view().items == Some(all),
                spec_playlist_items(all.take(i as int)) is Some,
                items.deep_view() == gathered + spec_playlist_items(all.take(i as int))->0,
            decreases raws.len() - i,
        {
            proof {
                assert(all.take(i + 1).drop_last() =~= all.take(i as int));
                assert(all.take(i + 1).last() == raws[i as int].deep_view());
            }
            let ghost before = items;
            match playlist_item(&raws[i]) {
                Ok(item) => {
                    items.push(item);
                    proof {
                        lemma_deep_view_push(before, items, item);
                        assert(items.deep_view() =~= gathered + spec_playlist_items(
                            all.take(i + 1),
                        )->0);
                    }
                },
                Err(error) => {
                    proof {
                        lemma_playlist_items_prefix(all, i + 1);
                    }
                    return Err(error);
                },
            }
            i += 1;
        }
        proof {
            assert(all.take(raws.len() as int) =~= all);
        }
        match page.next_page_token {
            Some(token) => Ok(
                PlaylistStep::More(
                    PlaylistWalk { playlist_id: self.playlist_id, page_token: Some(token), items },
                ),
            ),
            None => Ok(PlaylistStep::Done(items)),
        }
    }
}

/// A list of entries names videos only if each of its prefixes does.
pub proof fn lemma_playlist_items_prefix(raws: Seq<RawPlaylistItemView>, n: int)
    requires
        0 <= n <= raws.len(),
        spec_playlist_items(raws.take(n)) is None,
    ensures
        spec_playlist_items(raws) is None,
    decreases raws.len() - n,
{
    if n < raws.len() {
        assert(raws.take(n + 1).drop_last() =~= raws.take(n));
        lemma_playlist_items_prefix(raws, n + 1);
    } else {
        assert(raws.take(n) =~= raws);
    }
}

/// The videos of a concatenation are those of its pieces, if both have any.
pub proof fn lemma_playlist_items_concat(a: Seq<RawPlaylistItemView>, b: Seq<RawPlaylistItemView>)
    ensures
        spec_playlist_items(a + b) == match (spec_playlist_items(a), spec_playlist_items(b)) {
            (Some(x), Some(y)) => Some(x + y),
            _ => None,
        },
    decreases b.len(),
{
    if b.len() == 0 {
        assert(a + b =~= a);
        if spec_playlist_items(a) is Some {
            assert(spec_playlist_items(a)->0 + Seq::<PlaylistItemView>::empty()
                =~= spec_playlist_items(a)->0);
        }
    } else {
        assert((a + b).drop_last() =~= a + b.drop_last());
        assert((a + b).last() == b.last());
        lemma_playlist_items_concat(a, b.drop_last());
        match (spec_playlist_items(a), spec_playlist_items(b)) {
            (Some(x), Some(y)) => {
                assert(spec_playlist_items(a + b)->0 =~= x + y);
            },
            _ => {},
        }
    }
}

/// Where every entry names a video, the list has one video for each entry,
/// in the entries' order.
pub proof fn lemma_playlist_items_pointwise(raws: Seq<RawPlaylistItemView>)
    requires
        spec_playlist_items(raws) is Some,
    ensures
        spec_playlist_items(raws)->0.len() == raws.len(),
        forall|i: int|
            0 <= i < raws.len() ==> spec_playlist_item(raws[i]) == Some(
                #[trigger] spec_playlist_items(raws)->0[i],
            ),
    decreases raws.len(),
{
    if raws.len() > 0 {
        lemma_playlist_items_pointwise(raws.drop_last());
    }
}

/// A walk that is fed a whole listing of well-formed pages ends with the
/// last page, and has then gathered the videos of every page, in order, on
/// top of what it had.
pub proof fn lemma_playlist_run_from(walk: PlaylistWalkView, pages: Seq<PlaylistPageView>)
    requires
        spec_is_playlist_listing(pages),
        spec_pages_well_formed(pages),
    ensures
        spec_playlist_items(spec_listed_entries(pages)) is Some,
        spec_playlist_run(walk, pages) == Ok::<PlaylistStepView, HarvestError>(
            PlaylistStepView::Done(
                walk.items + spec_playlist_items(spec_listed_entries(pages))->0,
            ),
        ),
    decreases pages.len(),
{
    let first = pages.first().items->0;
    let rest = pages.drop_first();
    if pages.len() == 1 {
        assert(spec_listed_entries(rest) =~= Seq::empty());
        assert(spec_listed_entries(pages) =~= first);
    } else {
        let next = spec_playlist_advance(walk, pages.first())->Ok_0->More_0;
        assert(spec_is_playlist_listing(rest) && spec_pages_well_formed(rest)) by {
            assert forall|i: int| 0 <= i < rest.len() implies {
                &&& ((#[trigger] rest[i]).next_page_token is Some <==> i < rest.len() - 1)
                &&& rest[i].items is Some
                &&& spec_playlist_items(rest[i].items->0) is Some
            } by {
                assert(rest[i] == pages[i + 1]);
            }
        }
        lemma_playlist_run_from(next, rest);
        lemma_playlist_items_concat(first, spec_listed_entries(rest));
        assert(next.items + spec_playlist_items(spec_listed_entries(rest))->0 =~= walk.items
            + spec_playlist_items(spec_listed_entries(pages))->0);
    }
}

/// Completeness of the walk: however the platform cuts a playlist into
/// pages, the walk over the whole listing returns one video for each entry
/// of the playlist, in the playlist's order. Two listings of the same
/// entries, cut at other places, give the same videos.
pub proof fn law_playlist_walk_is_complete(playlist_id: Seq<char>, pages: Seq<PlaylistPageView>)
    requires
        spec_is_playlist_listing(pages),
        spec_pages_well_formed(pages),
    ensures
        spec_playlist_items(spec_listed_entries(pages)) is Some,
        spec_playlist_run(spec_playlist_start(playlist_id), pages) == Ok::<
            PlaylistStepView,
            HarvestError,
        >(PlaylistStepView::Done(spec_playlist_items(spec_listed_entries(pages))->0)),
        spec_playlist_items(spec_listed_entries(pages))->0.len() == spec_listed_entries(
            pages,
        ).len(),
        forall|i: int|
            0 <= i < spec_listed_entries(pages).len() ==> spec_playlist_item(
                spec_listed_entries(pages)[i],
            ) == Some(#[trigger] spec_playlist_items(spec_listed_entries(pages))->0[i]),
{
    lemma_playlist_run_from(spec_playlist_start(playlist_id), pages);
    lemma_playlist_items_pointwise(spec_listed_entries(pages));
    assert(Seq::<PlaylistItemView>::empty() + spec_playlist_items(spec_listed_entries(pages))->0
        =~= spec_playlist_items(spec_listed_entries(pages))->0);
}

/// A malformed response is fatal: a walk that is fed a whole listing in
/// which a page has no item list, or an entry lacks its video id or title,
/// fails, whatever it had gathered.
pub proof fn law_playlist_walk_rejects_malformed(walk: PlaylistWalkView, pages: Seq<PlaylistPageView>)
    requires
        spec_is_playlist_listing(pages),
        !spec_pages_well_formed(pages),
    ensures
        spec_playlist_run(walk, pages) is Err,
    decreases pages.len(),
{
    let rest = pages.drop_first();
    if pages.first().items is Some && spec_playlist_items(pages.first().items->0) is Some {
        let bad = choose|i: int|
            0 <= i < pages.len() && !({
                &&& (#[trigger] pages[i]).items is Some
                &&& spec_playlist_items(pages[i].items->0) is Some
            });
        assert(bad > 0);
        assert(rest[bad - 1] == pages[bad]);
        assert(spec_is_playlist_listing(rest)) by {
            assert forall|i: int| 0 <= i < rest.len() implies ((#[trigger] rest[i]).next_page_token
                is Some <==> i < rest.len() - 1) by {
                assert(rest[i] == pages[i + 1]);
            }
        }
        let next = spec_playlist_advance(walk, pages.first())->Ok_0->More_0;
        law_playlist_walk_rejects_malformed(next, rest);
    }
}

} // verus!
