//! Replies of a thread, and the choice of those that the operator is shown.

use crate::config::Config;
use vstd::prelude::*;

verus! {

/// One reply, as the forum hands it out.
#[derive(Clone, Debug, PartialEq, Eq)]
pub struct Post {
    /// Whether the configured account has yet to read the reply.
    pub is_unread: bool,
    /// Body of the reply.
    pub message: String,
    /// Forum name of its author.
    pub username: String,
    /// Identifier of the reply.
    pub post_id: i32,
    /// Place of the reply within its thread.
    pub position: i32,
}

/// What a `Post` holds, as plain text and numbers.
pub struct PostView {
    pub is_unread: bool,
    pub message: Seq<char>,
    pub username: Seq<char>,
    pub post_id: int,
    pub position: int,
}

impl View for Post {
    type V = PostView;

    open spec fn view(&self) -> PostView {
        PostView {
            is_unread: self.is_unread,
            message: self.message@,
            username: self.username@,
            post_id: self.post_id as int,
            position: self.position as int,
        }
    }
}

impl DeepView for Post {
    type V = PostView;

    open spec fn deep_view(&self) -> PostView {
        self@
    }
}

/// A reply that is shown to the operator: unread, and written by somebody
/// else.
#[derive(Clone, Debug, PartialEq, Eq)]
pub struct PostObject {
    /// Body of the reply.
    pub message: String,
    /// Forum name of its author.
    pub username: String,
    /// Identifier of the reply.
    pub post_id: i32,
    /// Place of the reply within its thread.
    pub position: i32,
}

/// What a `PostObject` holds, as plain text and numbers.
pub struct PostObjectView {
    pub message: Seq<char>,
    pub username: Seq<char>,
    pub post_id: int,
    pub position: int,
}

impl View for PostObject {
    type V = PostObjectView;

    open spec fn view(&self) -> PostObjectView {
        PostObjectView {
            message: self.message@,
            username: self.username@,
            post_id: self.post_id as int,
            position: self.position as int,
        }
    }
}

impl DeepView for PostObject {
    type V = PostObjectView;

    open spec fn deep_view(&self) -> PostObjectView {
        self@
    }
}

/// Whether `post` is shown to an operator whose forum name is `operator`:
/// it is unread and not the operator's own.
pub open spec fn is_surfaced(post: PostView, operator: Seq<char>) -> bool {
    post.is_unread && post.username != operator
}

/// `post` without its unread flag.
pub open spec fn stripped(post: PostView) -> PostObjectView {
    PostObjectView {
        message: post.message,
        username: post.username,
        post_id: post.post_id,
        position: post.position,
    }
}

/// The replies among `posts` that are shown to `operator`, in the order in
/// which `posts` holds them.
pub open spec fn surfaced(posts: Seq<PostView>, operator: Seq<char>) -> Seq<PostObjectView> {
    posts.filter(|p: PostView| is_surfaced(p, operator)).map_values(|p: PostView| stripped(p))
}

/// One more reply at the end of a page adds itself to the surfaced replies
/// if it is one of them, and changes nothing otherwise.
proof fn lemma_surfaced_push(posts: Seq<PostView>, post: PostView, operator: Seq<char>)
    ensures
        surfaced(posts.push(post), operator) == if is_surfaced(post, operator) {
            surfaced(posts, operator).push(stripped(post))
        } else {
            surfaced(posts, operator)
        },
{
    reveal(Seq::filter);
    let keep = |p: PostView| is_surfaced(p, operator);
    assert(posts.push(post).drop_last() == posts);
    if is_surfaced(post, operator) {
        assert(posts.push(post).filter(keep) == posts.filter(keep).push(post));
        assert(surfaced(posts.push(post), operator) =~= surfaced(posts, operator).push(
            stripped(post),
        ));
    }
}

/// Whether `shown` is what is left of an unread reply among `posts` that
/// somebody other than `operator` wrote.
pub open spec fn comes_from(
    shown: PostObjectView,
    posts: Seq<PostView>,
    operator: Seq<char>,
) -> bool {
    exists|j: int|
        0 <= j < posts.len() && (#[trigger] posts[j]).is_unread && posts[j].username != operator
            && stripped(posts[j]) == shown
}

/// No reply that is shown is the operator's own, and each was an unread
/// reply of the page.
pub proof fn law_shown_are_unread_and_foreign(posts: Seq<PostView>, operator: Seq<char>)
    ensures
        forall|i: int|
            0 <= i < surfaced(posts, operator).len() ==> (#[trigger] surfaced(
                posts,
                operator,
            )[i]).username != operator,
        forall|i: int|
            0 <= i < surfaced(posts, operator).len() ==> comes_from(
                #[trigger] surfaced(posts, operator)[i],
                posts,
                operator,
            ),
{
    let keep = |p: PostView| is_surfaced(p, operator);
    let kept = posts.filter(keep);
    assert forall|i: int| 0 <= i < surfaced(posts, operator).len() implies (#[trigger] surfaced(
        posts,
        operator,
    )[i]).username != operator && comes_from(surfaced(posts, operator)[i], posts, operator) by {
        posts.lemma_filter_pred(keep, i);
        assert(kept.contains(kept[i]));
        posts.lemma_filter_contains_rev(keep, kept[i]);
        let j = choose|j: int| 0 <= j < posts.len() && posts[j] == kept[i];
        assert(posts[j].is_unread && posts[j].username != operator);
    }
}

/// Every unread reply of the page that somebody other than the operator
/// wrote is shown.
pub proof fn law_unread_and_foreign_are_shown(posts: Seq<PostView>, operator: Seq<char>, j: int)
    requires
        0 <= j < posts.len(),
        posts[j].is_unread,
        posts[j].username != operator,
    ensures
        surfaced(posts, operator).contains(stripped(posts[j])),
{
    let keep = |p: PostView| is_surfaced(p, operator);
    let kept = posts.filter(keep);
    posts.lemma_filter_contains(keep, j);
    let i = choose|i: int| 0 <= i < kept.len() && kept[i] == posts[j];
    assert(surfaced(posts, operator)[i] == stripped(posts[j]));
}

/// Picks the replies of one page that the operator is shown: the unread
/// ones that somebody else wrote, in the order of the page.
pub fn unread_posts(posts: Vec<Post>, config: &Config) -> (chosen: Vec<PostObject>)
    ensures
        chosen.deep_view() == surfaced(posts.deep_view(), config@.username),
{
    let ghost operator = config@.username;
    let ghost page = posts.deep_view();
    let mut chosen: Vec<PostObject> = Vec::new();
    assert(page.take(0) == Seq::<PostView>::empty());
    assert(chosen.deep_view() == surfaced(page.take(0), operator)) by {
        reveal(Seq::filter);
        assert(chosen.deep_view() =~= surfaced(page.take(0), operator));
    }
    for post in it: posts
        invariant
            operator == config@.username,
            page.len() == it.seq().len(),
            forall|i: int| 0 <= i < page.len() ==> page[i] == it.seq()[i]@,
            chosen.deep_view() == surfaced(page.take(it.index() as int), operator),
    {
        proof {
            let i = it.index() as int;
            assert(page.take(i + 1) == page.take(i).push(post@));
            lemma_surfaced_push(page.take(i), post@, operator);
        }
        let ghost before = chosen.deep_view();
        if post.is_unread && !(post.username == config.username) {
            let kept = PostObject {
                message: post.message,
                username: post.username,
                post_id: post.post_id,
                position: post.position,
            };
            chosen.push(kept);
            assert(chosen.deep_view() =~= before.push(stripped(post@)));
        }
    }
    assert(page.take(page.len() as int) == page);
    chosen
}

} // verus!
