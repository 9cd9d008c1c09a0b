//! The scan for unread replies: from the last page of a thread towards the
//! first, until a page holds a reply to show.
//!
//! The scan is a state machine. Whoever runs it fetches the page that the
//! state asks for and hands the forum's answer to `Collector::step`, until
//! the state is `Done`.

use crate::config::Config;
use crate::pages::{resolved_pages, Failure, Thread};
use crate::posts::{
    comes_from, law_shown_are_unread_and_foreign, surfaced, unread_posts, Post, PostObject,
    PostObjectView, PostView,
};
use vstd::prelude::*;

verus! {

/// Where the scan stands.
#[derive(Clone, Debug, PartialEq, Eq)]
pub enum Collector {
    /// The page with this number is to be fetched next.
    Fetch { page: i32 },
    /// The scan is over, and these replies are shown to the operator.
    Done { posts: Vec<PostObject> },
}

/// What a `Collector` holds, as plain numbers and text.
pub enum CollectorView {
    Fetch { page: int },
    Done { posts: Seq<PostObjectView> },
}

impl View for Collector {
    type V = CollectorView;

    open spec fn view(&self) -> CollectorView {
        match *self {
            Collector::Fetch { page } => CollectorView::Fetch { page: page as int },
            Collector::Done { posts } => CollectorView::Done { posts: posts.deep_view() },
        }
    }
}

/// The forum's answer to the fetch of one page, as plain values.
pub open spec fn page_view(reply: Result<Vec<Post>, Failure>) -> Result<Seq<PostView>, Failure> {
    match reply {
        Ok(posts) => Ok(posts.deep_view()),
        Err(failure) => Err(failure),
    }
}

/// The state in which the scan of a thread of `pages` pages begins: at the
/// last page, or over at once where there is none.
pub open spec fn start_of(pages: int) -> CollectorView {
    if pages >= 1 {
        CollectorView::Fetch { page: pages }
    } else {
        CollectorView::Done { posts: Seq::empty() }
    }
}

/// The state that follows `state` once the forum has answered the fetch
/// that `state` asked for.
///
/// A failure ends the scan with nothing. A page with replies to show ends
/// it with those replies. A page without any sends the scan to the page
/// before it, or ends it with nothing if that was the first page. A scan
/// that is over stays as it is.
pub open spec fn step_of(
    state: CollectorView,
    reply: Result<Seq<PostView>, Failure>,
    operator: Seq<char>,
) -> CollectorView {
    match state {
        CollectorView::Done { .. } => state,
        CollectorView::Fetch { page } => match reply {
            Err(_) => CollectorView::Done { posts: Seq::empty() },
            Ok(posts) => if surfaced(posts, operator).len() > 0 {
                CollectorView::Done { posts: surfaced(posts, operator) }
            } else if page > 1 {
                CollectorView::Fetch { page: page - 1 }
            } else {
                CollectorView::Done { posts: Seq::empty() }
            },
        },
    }
}

/// An upper bound on the number of fetches that `state` still leads to.
pub open spec fn fetches_left(state: CollectorView) -> nat {
    match state {
        CollectorView::Done { .. } => 0,
        CollectorView::Fetch { page } => if page >= 1 {
            page as nat
        } else {
            1
        },
    }
}

/// The replies with which a scan ends that stands at `state`, where `forum`
/// gives the answer that each page's fetch gets.
pub open spec fn outcome(
    state: CollectorView,
    forum: spec_fn(int) -> Result<Seq<PostView>, Failure>,
    operator: Seq<char>,
) -> Seq<PostObjectView>
    decreases fetches_left(state),
{
    match state {
        CollectorView::Done { posts } => posts,
        CollectorView::Fetch { page } => outcome(
            step_of(state, forum(page), operator),
            forum,
            operator,
        ),
    }
}

/// The pages that a scan still fetches that stands at `state`, in the order
/// of the fetches.
pub open spec fn fetched(
    state: CollectorView,
    forum: spec_fn(int) -> Result<Seq<PostView>, Failure>,
    operator: Seq<char>,
) -> Seq<int>
    decreases fetches_left(state),
{
    match state {
        CollectorView::Done { .. } => Seq::empty(),
        CollectorView::Fetch { page } => seq![page] + fetched(
            step_of(state, forum(page), operator),
            forum,
            operator,
        ),
    }
}

/// The page numbers from `from` down to `to`, both included.
pub open spec fn countdown(from: int, to: int) -> Seq<int> {
    if from >= to {
        Seq::new((from - to + 1) as nat, |i: int| from - i)
    } else {
        Seq::empty()
    }
}

/// Whether page `page` of `forum` arrives and holds no reply to show.
pub open spec fn is_barren(
    forum: spec_fn(int) -> Result<Seq<PostView>, Failure>,
    operator: Seq<char>,
    page: int,
) -> bool {
    forum(page) is Ok && surfaced(forum(page)->Ok_0, operator).len() == 0
}

impl Collector {
    /// Begins the scan of a thread of `pages` pages.
    pub fn start(pages: i32) -> (state: Collector)
        ensures
            state@ == start_of(pages as int),
    {
        if pages >= 1 {
            Collector::Fetch { page: pages }
        } else {
            Collector::finished(Vec::new())
        }
    }

    /// The state of a scan that is over with `posts`.
    fn finished(posts: Vec<PostObject>) -> (state: Collector)
        ensures
            state@ == (CollectorView::Done { posts: posts.deep_view() }),
            posts@.len() == 0 ==> state@ == (CollectorView::Done { posts: Seq::empty() }),
    {
        assert(posts@.len() == 0 ==> posts.deep_view() =~= Seq::empty());
        Collector::Done { posts }
    }

    /// Takes the forum's answer to the fetch that this state asked for, and
    /// gives the state that follows.
    pub fn step(self, reply: Result<Vec<Post>, Failure>, config: &Config) -> (next: Collector)
        ensures
            next@ == step_of(self@, page_view(reply), config@.username),
    {
        match self {
            Collector::Done { posts } => Collector::finished(posts),
            Collector::Fetch { page } => match reply {
                Err(_) => Collector::finished(Vec::new()),
                Ok(posts) => {
                    let found = unread_posts(posts, config);
                    if found.len() > 0 {
                        Collector::finished(found)
                    } else if page > 1 {
                        Collector::Fetch { page: page - 1 }
                    } else {
                        Collector::finished(Vec::new())
                    }
                },
            },
        }
    }
}

/// While the pages from `hi` down to the one above `lo` are barren, a scan
/// at `hi` fetches them one after the other and then goes on as a scan at
/// `lo` does.
proof fn lemma_scan_descends(
    forum: spec_fn(int) -> Result<Seq<PostView>, Failure>,
    operator: Seq<char>,
    hi: int,
    lo: int,
)
    requires
        1 <= lo <= hi,
        forall|q: int| lo < q <= hi ==> is_barren(forum, operator, q),
    ensures
        outcome(CollectorView::Fetch { page: hi }, forum, operator) == outcome(
            CollectorView::Fetch { page: lo },
            forum,
            operator,
        ),
        fetched(CollectorView::Fetch { page: hi }, forum, operator) == countdown(hi, lo + 1)
            + fetched(CollectorView::Fetch { page: lo }, forum, operator),
    decreases hi - lo,
{
    let at_lo = fetched(CollectorView::Fetch { page: lo }, forum, operator);
    if hi == lo {
        assert(countdown(hi, lo + 1) + at_lo =~= at_lo);
    } else {
        assert(is_barren(forum, operator, hi));
        lemma_scan_descends(forum, operator, hi - 1, lo);
        assert(seq![hi] + countdown(hi - 1, lo + 1) =~= countdown(hi, lo + 1));
        assert(seq![hi] + (countdown(hi - 1, lo + 1) + at_lo) =~= (seq![hi] + countdown(
            hi - 1,
            lo + 1,
        )) + at_lo);
    }
}

/// A thread without pages is not scanned: nothing is fetched, and no reply
/// comes out.
pub proof fn law_no_pages_no_fetch(
    pages: int,
    forum: spec_fn(int) -> Result<Seq<PostView>, Failure>,
    operator: Seq<char>,
)
    requires
        pages <= 0,
    ensures
        fetched(start_of(pages), forum, operator) == Seq::<int>::empty(),
        outcome(start_of(pages), forum, operator) == Seq::<PostObjectView>::empty(),
{
}

/// Where the question about the thread itself fails, the page count is zero
/// and no page is fetched.
pub proof fn law_failed_thread_fetches_nothing(
    reply: Result<Thread, Failure>,
    forum: spec_fn(int) -> Result<Seq<PostView>, Failure>,
    operator: Seq<char>,
)
    requires
        reply is Err,
    ensures
        resolved_pages(reply) == 0,
        fetched(start_of(resolved_pages(reply)), forum, operator) == Seq::<int>::empty(),
        outcome(start_of(resolved_pages(reply)), forum, operator) == Seq::<PostObjectView>::empty(),
{
}

/// The scan ends at the first page, counted from the last, that holds a
/// reply to show: it comes out with exactly the replies shown of that page,
/// and has fetched that page and those after it, none before it.
pub proof fn law_first_find_ends_scan(
    pages: int,
    forum: spec_fn(int) -> Result<Seq<PostView>, Failure>,
    operator: Seq<char>,
    found_on: int,
)
    requires
        1 <= found_on <= pages,
        forall|q: int| found_on < q <= pages ==> is_barren(forum, operator, q),
        forum(found_on) is Ok,
        surfaced(forum(found_on)->Ok_0, operator).len() > 0,
    ensures
        outcome(start_of(pages), forum, operator) == surfaced(forum(found_on)->Ok_0, operator),
        fetched(start_of(pages), forum, operator) == countdown(pages, found_on),
{
    lemma_scan_descends(forum, operator, pages, found_on);
    let here = CollectorView::Fetch { page: found_on };
    let after = step_of(here, forum(found_on), operator);
    assert(outcome(after, forum, operator) == surfaced(forum(found_on)->Ok_0, operator));
    assert(fetched(after, forum, operator) == Seq::<int>::empty());
    assert(countdown(pages, found_on + 1) + seq![found_on] =~= countdown(pages, found_on));
    assert(fetched(here, forum, operator) =~= seq![found_on]);
}

/// A failure ends the scan: it comes out without a reply, and no page
/// before the failing one is fetched.
pub proof fn law_failure_ends_scan(
    pages: int,
    forum: spec_fn(int) -> Result<Seq<PostView>, Failure>,
    operator: Seq<char>,
    failed_on: int,
)
    requires
        1 <= failed_on <= pages,
        forall|q: int| failed_on < q <= pages ==> is_barren(forum, operator, q),
        forum(failed_on) is Err,
    ensures
        outcome(start_of(pages), forum, operator) == Seq::<PostObjectView>::empty(),
        fetched(start_of(pages), forum, operator) == countdown(pages, failed_on),
{
    lemma_scan_descends(forum, operator, pages, failed_on);
    let here = CollectorView::Fetch { page: failed_on };
    let after = step_of(here, forum(failed_on), operator);
    assert(outcome(after, forum, operator) == Seq::<PostObjectView>::empty());
    assert(fetched(after, forum, operator) == Seq::<int>::empty());
    assert(countdown(pages, failed_on + 1) + seq![failed_on] =~= countdown(pages, failed_on));
    assert(fetched(here, forum, operator) =~= seq![failed_on]);
}

/// A thread none of whose pages holds a reply to show is scanned down to
/// its first page and comes out without a reply.
pub proof fn law_barren_thread_is_scanned_whole(
    pages: int,
    forum: spec_fn(int) -> Result<Seq<PostView>, Failure>,
    operator: Seq<char>,
)
    requires
        1 <= pages,
        forall|q: int| 1 <= q <= pages ==> is_barren(forum, operator, q),
    ensures
        outcome(start_of(pages), forum, operator) == Seq::<PostObjectView>::empty(),
        fetched(start_of(pages), forum, operator) == countdown(pages, 1),
{
    lemma_scan_descends(forum, operator, pages, 1);
    let here = CollectorView::Fetch { page: 1 };
    assert(is_barren(forum, operator, 1));
    let after = step_of(here, forum(1), operator);
    assert(outcome(after, forum, operator) == Seq::<PostObjectView>::empty());
    assert(fetched(after, forum, operator) == Seq::<int>::empty());
    assert(countdown(pages, 2) + seq![1int] =~= countdown(pages, 1));
    assert(fetched(here, forum, operator) =~= seq![1int]);
}

/// What a scan comes out with is empty or the replies shown of one page
/// that it fetched.
proof fn lemma_outcome_is_one_page(
    state: CollectorView,
    forum: spec_fn(int) -> Result<Seq<PostView>, Failure>,
    operator: Seq<char>,
)
    requires
        state is Fetch,
    ensures
        outcome(state, forum, operator).len() == 0 || exists|i: int|
            0 <= i < fetched(state, forum, operator).len() && {
                let page = #[trigger] fetched(state, forum, operator)[i];
                forum(page) is Ok && outcome(state, forum, operator) == surfaced(
                    forum(page)->Ok_0,
                    operator,
                )
            },
    decreases fetches_left(state),
{
    let page = state->Fetch_page;
    let next = step_of(state, forum(page), operator);
    let pages = fetched(state, forum, operator);
    assert(pages[0] == page);
    if next is Fetch {
        lemma_outcome_is_one_page(next, forum, operator);
        if outcome(state, forum, operator).len() > 0 {
            let i = choose|i: int|
                0 <= i < fetched(next, forum, operator).len() && {
                    let page = #[trigger] fetched(next, forum, operator)[i];
                    forum(page) is Ok && outcome(next, forum, operator) == surfaced(
                        forum(page)->Ok_0,
                        operator,
                    )
                };
            assert(pages[i + 1] == fetched(next, forum, operator)[i]);
        }
    }
}

/// Whether `shown` was an unread reply that somebody other than `operator`
/// wrote, on one of the pages `pages` as `forum` hands them out.
pub open spec fn was_unread_on(
    shown: PostObjectView,
    pages: Seq<int>,
    forum: spec_fn(int) -> Result<Seq<PostView>, Failure>,
    operator: Seq<char>,
) -> bool {
    exists|k: int|
        0 <= k < pages.len() && forum(#[trigger] pages[k]) is Ok && comes_from(
            shown,
            forum(pages[k])->Ok_0,
            operator,
        )
}

/// Whatever the forum answers, the scan of a thread never comes out with a
/// reply of the operator's own, and each reply that it comes out with was
/// an unread reply of a page that it fetched.
pub proof fn law_collected_are_unread_and_foreign(
    pages: int,
    forum: spec_fn(int) -> Result<Seq<PostView>, Failure>,
    operator: Seq<char>,
)
    ensures
        forall|i: int|
            0 <= i < outcome(start_of(pages), forum, operator).len() ==> (#[trigger] outcome(
                start_of(pages),
                forum,
                operator,
            )[i]).username != operator,
        forall|i: int|
            0 <= i < outcome(start_of(pages), forum, operator).len() ==> was_unread_on(
                #[trigger] outcome(start_of(pages), forum, operator)[i],
                fetched(start_of(pages), forum, operator),
                forum,
                operator,
            ),
{
    let state = start_of(pages);
    if pages >= 1 && outcome(state, forum, operator).len() > 0 {
        lemma_outcome_is_one_page(state, forum, operator);
        let trail = fetched(state, forum, operator);
        let k = choose|k: int|
            0 <= k < trail.len() && {
                let page = #[trigger] fetched(state, forum, operator)[k];
                forum(page) is Ok && outcome(state, forum, operator) == surfaced(
                    forum(page)->Ok_0,
                    operator,
                )
            };
        law_shown_are_unread_and_foreign(forum(trail[k])->Ok_0, operator);
        assert forall|i: int| 0 <= i < outcome(state, forum, operator).len() implies was_unread_on(
            #[trigger] outcome(state, forum, operator)[i],
            trail,
            forum,
            operator,
        ) by {
            assert(forum(trail[k]) is Ok);
        }
    }
}

/// A scan at a page fetches that page, then the one before it, and so on,
/// and never goes below the first page.
proof fn lemma_fetches_descend(
    state: CollectorView,
    forum: spec_fn(int) -> Result<Seq<PostView>, Failure>,
    operator: Seq<char>,
)
    requires
        state is Fetch,
        state->Fetch_page >= 1,
    ensures
        fetched(state, forum, operator).len() <= state->Fetch_page,
        forall|i: int|
            0 <= i < fetched(state, forum, operator).len() ==> #[trigger] fetched(
                state,
                forum,
                operator,
            )[i] == state->Fetch_page - i,
    decreases fetches_left(state),
{
    let page = state->Fetch_page;
    let next = step_of(state, forum(page), operator);
    let rest = fetched(next, forum, operator);
    if next is Fetch {
        lemma_fetches_descend(next, forum, operator);
    }
    assert forall|i: int| 0 <= i < fetched(state, forum, operator).len() implies #[trigger] fetched(
        state,
        forum,
        operator,
    )[i] == page - i by {
        if i > 0 {
            assert(fetched(state, forum, operator)[i] == rest[i - 1]);
        }
    }
}

/// The scan fetches pages in descending order, one after the other, from
/// the last page of the thread on, and never a page twice.
pub proof fn law_fetches_descend_from_the_last_page(
    pages: int,
    forum: spec_fn(int) -> Result<Seq<PostView>, Failure>,
    operator: Seq<char>,
)
    ensures
        fetched(start_of(pages), forum, operator).len() <= if pages >= 1 {
            pages
        } else {
            0
        },
        forall|i: int|
            0 <= i < fetched(start_of(pages), forum, operator).len() ==> #[trigger] fetched(
                start_of(pages),
                forum,
                operator,
            )[i] == pages - i,
{
    if pages >= 1 {
        lemma_fetches_descend(CollectorView::Fetch { page: pages }, forum, operator);
    }
}

} // verus!
