//! The operator's pass over the replies that were found: each one is shown
//! in turn, and becomes an issue if the operator confirms.

use crate::config::{Config, ConfigView};
use crate::posts::{PostObject, PostObjectView};
use crate::text::{confirms, is_confirmation, push_signed_decimal, signed_decimal};
use vstd::prelude::*;

verus! {

/// The line that is printed between two replies.
pub const SEPARATOR: &'static str =
    "─────────────────────────────────────────────────────────────────────────────────────────────────────────";

/// What the operator is told when no reply is left to show.
pub const NO_NEW_MESSAGES: &'static str = "No new messages.";

/// What the operator is asked once every reply has been decided on.
pub const MARK_READ_QUESTION: &'static str = "Mark all messages as read? (y/n)";

/// An issue to be created in the tracker.
#[derive(Clone, Debug, PartialEq, Eq)]
pub struct IssueRequest {
    /// Owner of the repository that receives the issue.
    pub owner: String,
    /// Name of that repository.
    pub repo: String,
    /// Title of the issue.
    pub title: String,
    /// Body of the issue.
    pub body: String,
}

/// What an `IssueRequest` holds, as plain text.
pub struct IssueRequestView {
    pub owner: Seq<char>,
    pub repo: Seq<char>,
    pub title: Seq<char>,
    pub body: Seq<char>,
}

impl View for IssueRequest {
    type V = IssueRequestView;

    open spec fn view(&self) -> IssueRequestView {
        IssueRequestView {
            owner: self.owner@,
            repo: self.repo@,
            title: self.title@,
            body: self.body@,
        }
    }
}

/// Title of the issue that stands for `post`: its author, its identifier
/// and its position, with ` - ` between them.
pub open spec fn issue_title(post: PostObjectView) -> Seq<char> {
    post.username + " - "@ + signed_decimal(post.post_id) + " - "@ + signed_decimal(post.position)
}

/// The issue that stands for `post` in the configured repository: the title
/// names the reply, the body is its message.
pub open spec fn issue_for(post: PostObjectView, c: ConfigView) -> IssueRequestView {
    IssueRequestView {
        owner: c.gh_owner,
        repo: c.gh_repo,
        title: issue_title(post),
        body: post.message,
    }
}

/// What the operator is asked about `post`.
pub open spec fn prompt_text(post: PostObjectView) -> Seq<char> {
    "User: "@ + post.username + "\nMessage: "@ + post.message
        + "\nStore message as issue? (y/n)"@
}

/// What follows from the operator's answer `line` to the question about
/// `post`: its issue if the answer confirms, nothing otherwise.
pub open spec fn decision(post: PostObjectView, line: Seq<char>, c: ConfigView) -> Option<
    IssueRequestView,
> {
    if confirms(line) {
        Some(issue_for(post, c))
    } else {
        None
    }
}

/// The view of an optional issue.
pub open spec fn issue_view(request: Option<IssueRequest>) -> Option<IssueRequestView> {
    match request {
        Some(r) => Some(r@),
        None => None,
    }
}

/// The question that the operator is asked about `message`.
pub fn prompt(message: &PostObject) -> (text: String)
    ensures
        text@ == prompt_text(message@),
{
    let mut text = String::from_str("User: ");
    text.append(message.username.as_str());
    text.append("\nMessage: ");
    text.append(message.message.as_str());
    text.append("\nStore message as issue? (y/n)");
    text
}

/// The issue that stands for `message` in the configured repository.
pub fn create_issue(message: PostObject, config: &Config) -> (request: IssueRequest)
    ensures
        request@ == issue_for(message@, config@),
{
    let mut title = message.username;
    title.append(" - ");
    push_signed_decimal(&mut title, message.post_id);
    title.append(" - ");
    push_signed_decimal(&mut title, message.position);
    IssueRequest {
        owner: config.gh_owner.clone(),
        repo: config.gh_repo.clone(),
        title,
        body: message.message,
    }
}

/// The replies that the operator has yet to decide on, the next one first.
#[derive(Clone, Debug, PartialEq, Eq)]
pub struct Triage {
    pub pending: Vec<PostObject>,
}

impl View for Triage {
    type V = Seq<PostObjectView>;

    open spec fn view(&self) -> Seq<PostObjectView> {
        self.pending.deep_view()
    }
}

impl Triage {
    /// Begins the pass over `message_store`, in its order. There is no pass
    /// over nothing: without a reply to show the run has no new messages to
    /// report.
    pub fn begin(message_store: Vec<PostObject>) -> (r: Option<Triage>)
        ensures
            r is Some <==> message_store.len() > 0,
            r is Some ==> r->0@ == message_store.deep_view(),
    {
        if message_store.len() > 0 {
            Some(Triage { pending: message_store })
        } else {
            None
        }
    }

    /// The reply that the operator is to be asked about now, if one is left.
    pub fn current(&self) -> (r: Option<&PostObject>)
        ensures
            r is Some <==> self@.len() > 0,
            r is Some ==> r->0@ == self@[0],
    {
        if self.pending.len() > 0 {
            Some(&self.pending[0])
        } else {
            None
        }
    }

    /// Takes the operator's answer about the current reply and moves on to
    /// the next. Gives the issue to create if the answer confirms: if it is
    /// a `y`, with or without white space around it, such as the end of the
    /// line. Without a current reply nothing changes and nothing is created.
    pub fn answer(&mut self, line: &str, config: &Config) -> (r: Option<IssueRequest>)
        ensures
            old(self)@.len() == 0 ==> final(self)@ == old(self)@ && r is None,
            old(self)@.len() > 0 ==> final(self)@ == old(self)@.drop_first() && issue_view(r)
                == decision(old(self)@[0], line@, config@),
    {
        if self.pending.len() == 0 {
            return None;
        }
        let ghost before = self.pending.deep_view();
        let message = self.pending.remove(0);
        assert(self.pending.deep_view() =~= before.drop_first());
        assert(message@ == before[0]);
        if is_confirmation(line) {
            Some(create_issue(message, config))
        } else {
            None
        }
    }
}

/// The issues that a pass over `pending` creates, in the order of their
/// creation, when the operator answers the question about each reply with
/// the line of `lines` at the same place. The pass ends with the replies or
/// with the lines, whichever come to an end first.
pub open spec fn issues_created(
    pending: Seq<PostObjectView>,
    lines: Seq<Seq<char>>,
    c: ConfigView,
) -> Seq<IssueRequestView>
    decreases pending.len(),
{
    if pending.len() == 0 || lines.len() == 0 {
        Seq::empty()
    } else {
        let first = match decision(pending[0], lines[0], c) {
            Some(request) => seq![request],
            None => Seq::empty(),
        };
        first + issues_created(pending.drop_first(), lines.drop_first(), c)
    }
}

/// A pass over one reply creates exactly one issue if the operator
/// confirms, the one that stands for the reply, and none on any other
/// answer.
pub proof fn law_one_reply_one_decision(post: PostObjectView, line: Seq<char>, c: ConfigView)
    ensures
        issues_created(seq![post], seq![line], c) == if confirms(line) {
            seq![issue_for(post, c)]
        } else {
            Seq::empty()
        },
{
    let rest = issues_created(seq![post].drop_first(), seq![line].drop_first(), c);
    assert(rest == Seq::<IssueRequestView>::empty());
    if confirms(line) {
        assert(seq![issue_for(post, c)] + rest =~= seq![issue_for(post, c)]);
    } else {
        assert(Seq::<IssueRequestView>::empty() + rest =~= Seq::<IssueRequestView>::empty());
    }
}

/// A pass never creates more issues than there are replies, and none at all
/// where no answer confirms.
pub proof fn law_issues_need_confirmation(
    pending: Seq<PostObjectView>,
    lines: Seq<Seq<char>>,
    c: ConfigView,
)
    ensures
        issues_created(pending, lines, c).len() <= pending.len(),
        (forall|i: int| 0 <= i < lines.len() ==> !confirms(#[trigger] lines[i])) ==> issues_created(
            pending,
            lines,
            c,
        ).len() == 0,
    decreases pending.len(),
{
    if pending.len() > 0 && lines.len() > 0 {
        law_issues_need_confirmation(pending.drop_first(), lines.drop_first(), c);
        if forall|i: int| 0 <= i < lines.len() ==> !confirms(#[trigger] lines[i]) {
            assert(!confirms(lines[0]));
            assert forall|i: int| 0 <= i < lines.drop_first().len() implies !confirms(
                #[trigger] lines.drop_first()[i],
            ) by {
                assert(lines.drop_first()[i] == lines[i + 1]);
            }
        }
    }
}

} // verus!
