//! Webhook events as plain values, and the text each one renders to.
use vstd::prelude::*;
use vstd::string::*;

use crate::text::{
    decimal, first_line, first_line_of, push_decimal, short_id, short_id_of, starts_with_text,
};

verus! {

/// One commit of a push.
#[derive(Debug)]
pub struct PushCommit {
    pub id: String,
    pub message: String,
    pub url: String,
    pub added: u64,
    pub modified: u64,
    pub removed: u64,
}

/// What was done to an issue.
#[derive(Debug, Clone, Copy, PartialEq, Eq, Structural)]
pub enum IssueAction {
    Update,
    Open,
    Close,
    Reopen,
}

/// What was done to a merge request.
#[derive(Debug, Clone, Copy, PartialEq, Eq, Structural)]
pub enum MergeRequestAction {
    Update,
    Open,
    Close,
    Reopen,
    Approved,
    Unapproved,
    Merge,
}

/// What a comment was written on.
#[derive(Debug)]
pub enum NoteTarget {
    Commit { commit_id: String },
    Issue { iid: u64 },
    MergeRequest { iid: u64 },
    Snippet { title: String },
}

/// An inbound webhook event. `Unrecognized` carries the reason why the
/// payload could not be read as any other kind.
#[derive(Debug)]
#[allow(inconsistent_fields)]
pub enum InboundEvent {
    Push {
        user: String,
        project: String,
        web_url: String,
        git_ref: String,
        commits: Vec<PushCommit>,
    },
    Issue {
        user: String,
        project: String,
        iid: u64,
        title: String,
        description: Option<String>,
        url: Option<String>,
        action: Option<IssueAction>,
    },
    Note { user: String, project: String, note: String, url: String, target: NoteTarget },
    MergeRequest {
        user: String,
        project: String,
        iid: u64,
        url: Option<String>,
        action: Option<MergeRequestAction>,
    },
    Build,
    Pipeline,
    WikiPage,
    Unrecognized { error: String },
}

/// Why an event that was read renders to no message.
#[derive(Debug, Clone, Copy, PartialEq, Eq, Structural)]
pub enum RenderError {
    UnknownIssueAction,
    UnknownMrAction,
}

/// `n` followed by `mark`, or nothing when `n` is zero.
pub open spec fn count_part(n: nat, mark: Seq<char>) -> Seq<char> {
    if n > 0 {
        decimal(n) + mark
    } else {
        Seq::empty()
    }
}

/// The changed-file summary of a commit: the nonzero counts, each with its
/// mark, in the order added, modified, removed.
pub open spec fn modification_text(added: nat, modified: nat, removed: nat) -> Seq<char> {
    count_part(added, "+"@) + count_part(modified, "M"@) + count_part(removed, "-"@)
}

/// The line that a push message holds for one commit, with the line feed
/// that opens it.
pub open spec fn commit_line(c: PushCommit) -> Seq<char> {
    "\n"@ + short_id(c.id@) + " "@ + first_line(c.message@) + " ("@ + modification_text(
        c.added as nat,
        c.modified as nat,
        c.removed as nat,
    ) + ")"@
}

/// The lines of all of `cs`, one per commit, in order.
pub open spec fn commit_lines(cs: Seq<PushCommit>) -> Seq<char>
    decreases cs.len(),
{
    if cs.len() == 0 {
        Seq::empty()
    } else {
        commit_lines(cs.drop_last()) + commit_line(cs.last())
    }
}

/// The first line of a push message to a branch.
pub open spec fn branch_header(user: Seq<char>, project: Seq<char>, branch: Seq<char>) -> Seq<char> {
    "Recent commit to "@ + project + ":"@ + branch + " by "@ + user
}

/// What closes a push message to a branch: the first commit's address.
pub open spec fn first_commit_url(cs: Seq<PushCommit>) -> Seq<char> {
    if cs.len() > 0 {
        "\n\n"@ + cs[0].url@
    } else {
        Seq::empty()
    }
}

/// Whether `s` begins with `prefix`.
pub open spec fn has_prefix(s: Seq<char>, prefix: Seq<char>) -> bool {
    prefix.len() <= s.len() && s.subrange(0, prefix.len() as int) == prefix
}

/// The message of a push of `commits` to `git_ref`.
pub open spec fn push_text(
    user: Seq<char>,
    project: Seq<char>,
    web_url: Seq<char>,
    git_ref: Seq<char>,
    commits: Seq<PushCommit>,
) -> Seq<char> {
    if has_prefix(git_ref, "refs/heads/"@) {
        let branch = git_ref.subrange("refs/heads/"@.len() as int, git_ref.len() as int);
        branch_header(user, project, branch) + commit_lines(commits) + first_commit_url(commits)
    } else if has_prefix(git_ref, "refs/tags/"@) {
        let tag = git_ref.subrange("refs/tags/"@.len() as int, git_ref.len() as int);
        "New tag "@ + tag + " on "@ + project + " by "@ + user + "\n\n"@ + web_url + "/-/tags/"@
            + tag
    } else {
        "New "@ + git_ref + " on "@ + project + " by "@ + user
    }
}

/// The text of `o`, or `fallback` when it is absent.
pub open spec fn text_or(o: Option<String>, fallback: Seq<char>) -> Seq<char> {
    match o {
        Some(s) => s@,
        None => fallback,
    }
}

/// The verb that reports an issue action.
pub open spec fn issue_verb(a: IssueAction) -> Seq<char> {
    match a {
        IssueAction::Update => "updated"@,
        IssueAction::Open => "opened"@,
        IssueAction::Close => "closed"@,
        IssueAction::Reopen => "reopened"@,
    }
}

/// The verb that reports a merge request action.
pub open spec fn mr_verb(a: MergeRequestAction) -> Seq<char> {
    match a {
        MergeRequestAction::Update => "updated"@,
        MergeRequestAction::Open => "opened"@,
        MergeRequestAction::Close => "closed"@,
        MergeRequestAction::Reopen => "reopened"@,
        MergeRequestAction::Approved => "approved"@,
        MergeRequestAction::Unapproved => "unapproved"@,
        MergeRequestAction::Merge => "merged"@,
    }
}

/// The message of an issue event whose action is `action`.
pub open spec fn issue_text(
    user: Seq<char>,
    project: Seq<char>,
    iid: nat,
    title: Seq<char>,
    description: Option<String>,
    url: Option<String>,
    action: IssueAction,
) -> Seq<char> {
    user + " "@ + issue_verb(action) + " issue "@ + project + "#"@ + decimal(iid) + "\n"@ + title
        + "\n"@ + text_or(description, Seq::empty()) + "\n\n"@ + text_or(
        url,
        "Fail to fetch issue url, a bug of GitLab?"@,
    )
}

/// What a comment names as the thing it was written on.
pub open spec fn note_subject(project: Seq<char>, target: NoteTarget) -> Seq<char> {
    match target {
        NoteTarget::Commit { commit_id } => project + "@"@ + short_id(commit_id@),
        NoteTarget::Issue { iid } => project + "#"@ + decimal(iid as nat),
        NoteTarget::MergeRequest { iid } => project + "#"@ + decimal(iid as nat),
        NoteTarget::Snippet { title } => "snippet "@ + title@,
    }
}

/// The message of a comment.
pub open spec fn note_text(
    user: Seq<char>,
    project: Seq<char>,
    note: Seq<char>,
    url: Seq<char>,
    target: NoteTarget,
) -> Seq<char> {
    user + " commented on "@ + note_subject(project, target) + "\n"@ + note + "\n\n"@ + url
}

/// The message of a merge request event whose action is `action`.
pub open spec fn mr_text(
    user: Seq<char>,
    project: Seq<char>,
    iid: nat,
    url: Option<String>,
    action: MergeRequestAction,
) -> Seq<char> {
    user + " "@ + mr_verb(action) + " mr "@ + project + "#"@ + decimal(iid) + "\n\n"@ + text_or(
        url,
        "Fail to fetch merge request url, a bug of GitLab?"@,
    )
}

/// The message that `e` renders to, or why it renders to none.
pub open spec fn rendered(e: InboundEvent) -> Result<Seq<char>, RenderError> {
    match e {
        InboundEvent::Push { user, project, web_url, git_ref, commits } => Ok(
            push_text(user@, project@, web_url@, git_ref@, commits@),
        ),
        InboundEvent::Issue { user, project, iid, title, description, url, action } => match action {
            Some(a) => Ok(issue_text(user@, project@, iid as nat, title@, description, url, a)),
            None => Err(RenderError::UnknownIssueAction),
        },
        InboundEvent::Note { user, project, note, url, target } => Ok(
            note_text(user@, project@, note@, url@, target),
        ),
        InboundEvent::MergeRequest { user, project, iid, url, action } => match action {
            Some(a) => Ok(mr_text(user@, project@, iid as nat, url, a)),
            None => Err(RenderError::UnknownMrAction),
        },
        InboundEvent::Build => Ok("Unsupported action build"@),
        InboundEvent::Pipeline => Ok("Unsupported action pipeline"@),
        InboundEvent::WikiPage => Ok("Unsupported action wiki page"@),
        InboundEvent::Unrecognized { error } => Ok(error@),
    }
}

/// Whether `r` is the outcome `want`: the same text, or the same failure.
pub open spec fn renders_as(r: Result<String, RenderError>, want: Result<Seq<char>, RenderError>) -> bool {
    match (r, want) {
        (Ok(text), Ok(w)) => text@ == w,
        (Err(e), Err(w)) => e == w,
        _ => false,
    }
}

/// A push to a branch renders as its header, then one line per commit in
/// order, then, when there is a commit, a blank line and the first commit's
/// address; with no commit the header stands alone.
pub proof fn lemma_push_branch_layout(
    user: Seq<char>,
    project: Seq<char>,
    web_url: Seq<char>,
    git_ref: Seq<char>,
    commits: Seq<PushCommit>,
)
    requires
        has_prefix(git_ref, "refs/heads/"@),
    ensures
        commits.len() > 0 ==> push_text(user, project, web_url, git_ref, commits) == branch_header(
            user,
            project,
            git_ref.subrange("refs/heads/"@.len() as int, git_ref.len() as int),
        ) + commit_lines(commits) + "\n\n"@ + commits[0].url@,
        commits.len() == 0 ==> push_text(user, project, web_url, git_ref, commits) == branch_header(
            user,
            project,
            git_ref.subrange("refs/heads/"@.len() as int, git_ref.len() as int),
        ),
        forall|i: int|
            0 <= i < commits.len() ==> #[trigger] commit_lines(commits.subrange(0, i + 1))
                == commit_lines(commits.subrange(0, i)) + commit_line(commits[i]),
        commit_lines(commits.subrange(0, commits.len() as int)) == commit_lines(commits),
{
    let header = branch_header(
        user,
        project,
        git_ref.subrange("refs/heads/"@.len() as int, git_ref.len() as int),
    );
    if commits.len() == 0 {
        assert(header + commit_lines(commits) + Seq::<char>::empty() =~= header);
    }
    assert forall|i: int| 0 <= i < commits.len() implies #[trigger] commit_lines(
        commits.subrange(0, i + 1),
    ) == commit_lines(commits.subrange(0, i)) + commit_line(commits[i]) by {
        assert(commits.subrange(0, i + 1).drop_last() =~= commits.subrange(0, i));
    }
    assert(commits.subrange(0, commits.len() as int) =~= commits);
}

/// Rendering is a function of the event alone: two outcomes that each meet
/// the contract of `render` on one event are the same text or the same
/// failure.
pub proof fn lemma_render_deterministic(
    e: InboundEvent,
    r1: Result<String, RenderError>,
    r2: Result<String, RenderError>,
)
    requires
        renders_as(r1, rendered(e)),
        renders_as(r2, rendered(e)),
    ensures
        match (r1, r2) {
            (Ok(a), Ok(b)) => a@ == b@,
            (Err(x), Err(y)) => x == y,
            _ => false,
        },
{
}

fn push_count_part(out: &mut String, n: u64, mark: &str)
    ensures
        final(out)@ == old(out)@ + count_part(n as nat, mark@),
{
    if n > 0 {
        push_decimal(out, n);
        out.append(mark);
    } else {
        assert(old(out)@ + Seq::<char>::empty() =~= old(out)@);
    }
}

fn push_modification(out: &mut String, added: u64, modified: u64, removed: u64)
    ensures
        final(out)@ == old(out)@ + modification_text(added as nat, modified as nat, removed as nat),
{
    let ghost start = out@;
    push_count_part(out, added, "+");
    push_count_part(out, modified, "M");
    push_count_part(out, removed, "-");
    assert(out@ =~= start + modification_text(added as nat, modified as nat, removed as nat));
}

/// The changed-file summary of a commit with the given counts: each
/// nonzero count followed by `+`, `M` or `-`, with nothing between them.
pub fn modification_suffix(added: u64, modified: u64, removed: u64) -> (r: String)
    ensures
        r@ == modification_text(added as nat, modified as nat, removed as nat),
{
    let mut r = String::new();
    push_modification(&mut r, added, modified, removed);
    assert(r@ =~= modification_text(added as nat, modified as nat, removed as nat));
    r
}

fn push_commit_line(out: &mut String, c: &PushCommit)
    ensures
        final(out)@ == old(out)@ + commit_line(*c),
{
    let ghost start = out@;
    out.append("\n");
    out.append(short_id_of(c.id.as_str()));
    out.append(" ");
    out.append(first_line_of(c.message.as_str()));
    out.append(" (");
    push_modification(out, c.added, c.modified, c.removed);
    out.append(")");
    assert(out@ =~= start + commit_line(*c));
}

fn render_push(
    user: &String,
    project: &String,
    web_url: &String,
    git_ref: &String,
    commits: &Vec<PushCommit>,
) -> (r: String)
    ensures
        r@ == push_text(user@, project@, web_url@, git_ref@, commits@),
{
    let r_ref = git_ref.as_str();
    let n = r_ref.unicode_len();
    let mut out = String::new();
    if starts_with_text(r_ref, "refs/heads/") {
        let m = "refs/heads/".unicode_len();
        let branch = r_ref.substring_char(m, n);
        out.append("Recent commit to ");
        out.append(project.as_str());
        out.append(":");
        out.append(branch);
        out.append(" by ");
        out.append(user.as_str());
        let ghost header = out@;
        assert(header =~= branch_header(user@, project@, branch@));
        let mut i: usize = 0;
        while i < commits.len()
            invariant
                i <= commits@.len(),
                out@ == header + commit_lines(commits@.subrange(0, i as int)),
            decreases commits@.len() - i,
        {
            push_commit_line(&mut out, &commits[i]);
            proof {
                let next = commits@.subrange(0, i + 1);
                assert(next.drop_last() =~= commits@.subrange(0, i as int));
                assert(next.last() == commits@[i as int]);
            }
            i = i + 1;
        }
        assert(commits@.subrange(0, commits@.len() as int) =~= commits@);
        if commits.len() > 0 {
            let ghost before = out@;
            out.append("\n\n");
            out.append(commits[0].url.as_str());
            assert(out@ =~= before + first_commit_url(commits@));
        } else {
            assert(out@ =~= out@ + first_commit_url(commits@));
        }
        out
    } else if starts_with_text(r_ref, "refs/tags/") {
        let m = "refs/tags/".unicode_len();
        let tag = r_ref.substring_char(m, n);
        out.append("New tag ");
        out.append(tag);
        out.append(" on ");
        out.append(project.as_str());
        out.append(" by ");
        out.append(user.as_str());
        out.append("\n\n");
        out.append(web_url.as_str());
        out.append("/-/tags/");
        out.append(tag);
        assert(out@ =~= push_text(user@, project@, web_url@, git_ref@, commits@));
        out
    } else {
        out.append("New ");
        out.append(r_ref);
        out.append(" on ");
        out.append(project.as_str());
        out.append(" by ");
        out.append(user.as_str());
        assert(out@ =~= push_text(user@, project@, web_url@, git_ref@, commits@));
        out
    }
}

fn issue_verb_of(a: IssueAction) -> (r: &'static str)
    ensures
        r@ == issue_verb(a),
{
    match a {
        IssueAction::Update => "updated",
        IssueAction::Open => "opened",
        IssueAction::Close => "closed",
        IssueAction::Reopen => "reopened",
    }
}

fn mr_verb_of(a: MergeRequestAction) -> (r: &'static str)
    ensures
        r@ == mr_verb(a),
{
    match a {
        MergeRequestAction::Update => "updated",
        MergeRequestAction::Open => "opened",
        MergeRequestAction::Close => "closed",
        MergeRequestAction::Reopen => "reopened",
        MergeRequestAction::Approved => "approved",
        MergeRequestAction::Unapproved => "unapproved",
        MergeRequestAction::Merge => "merged",
    }
}

fn push_text_or(out: &mut String, o: &Option<String>, fallback: &str)
    ensures
        final(out)@ == old(out)@ + text_or(*o, fallback@),
{
    match o {
        Some(s) => out.append(s.as_str()),
        None => out.append(fallback),
    }
}

fn render_issue(
    user: &String,
    project: &String,
    iid: u64,
    title: &String,
    description: &Option<String>,
    url: &Option<String>,
    action: IssueAction,
) -> (r: String)
    ensures
        r@ == issue_text(user@, project@, iid as nat, title@, *description, *url, action),
{
    let mut out = String::new();
    out.append(user.as_str());
    out.append(" ");
    out.append(issue_verb_of(action));
    out.append(" issue ");
    out.append(project.as_str());
    out.append("#");
    push_decimal(&mut out, iid);
    out.append("\n");
    out.append(title.as_str());
    out.append("\n");
    push_text_or(&mut out, description, "");
    proof {
        reveal_strlit("");
        assert(""@ =~= Seq::<char>::empty());
    }
    out.append("\n\n");
    push_text_or(&mut out, url, "Fail to fetch issue url, a bug of GitLab?");
    assert(out@ =~= issue_text(user@, project@, iid as nat, title@, *description, *url, action));
    out
}

fn push_note_subject(out: &mut String, project: &String, target: &NoteTarget)
    ensures
        final(out)@ == old(out)@ + note_subject(project@, *target),
{
    let ghost start = out@;
    match target {
        NoteTarget::Commit { commit_id } => {
            out.append(project.as_str());
            out.append("@");
            out.append(short_id_of(commit_id.as_str()));
        },
        NoteTarget::Issue { iid } => {
            out.append(project.as_str());
            out.append("#");
            push_decimal(out, *iid);
        },
        NoteTarget::MergeRequest { iid } => {
            out.append(project.as_str());
            out.append("#");
            push_decimal(out, *iid);
        },
        NoteTarget::Snippet { title } => {
            out.append("snippet ");
            out.append(title.as_str());
        },
    }
    assert(out@ =~= start + note_subject(project@, *target));
}

fn render_note(
    user: &String,
    project: &String,
    note: &String,
    url: &String,
    target: &NoteTarget,
) -> (r: String)
    ensures
        r@ == note_text(user@, project@, note@, url@, *target),
{
    let mut out = String::new();
    out.append(user.as_str());
    out.append(" commented on ");
    push_note_subject(&mut out, project, target);
    out.append("\n");
    out.append(note.as_str());
    out.append("\n\n");
    out.append(url.as_str());
    assert(out@ =~= note_text(user@, project@, note@, url@, *target));
    out
}

fn render_mr(
    user: &String,
    project: &String,
    iid: u64,
    url: &Option<String>,
    action: MergeRequestAction,
) -> (r: String)
    ensures
        r@ == mr_text(user@, project@, iid as nat, *url, action),
{
    let mut out = String::new();
    out.append(user.as_str());
    out.append(" ");
    out.append(mr_verb_of(action));
    out.append(" mr ");
    out.append(project.as_str());
    out.append("#");
    push_decimal(&mut out, iid);
    out.append("\n\n");
    push_text_or(&mut out, url, "Fail to fetch merge request url, a bug of GitLab?");
    assert(out@ =~= mr_text(user@, project@, iid as nat, *url, action));
    out
}

/// Renders `event` as a message. The one failure is an issue or merge
/// request event whose action is not known.
pub fn render(event: &InboundEvent) -> (r: Result<String, RenderError>)
    ensures
        renders_as(r, rendered(*event)),
{
    match event {
        InboundEvent::Push { user, project, web_url, git_ref, commits } => Ok(
            render_push(user, project, web_url, git_ref, commits),
        ),
        InboundEvent::Issue { user, project, iid, title, description, url, action } => match action {
            Some(a) => Ok(render_issue(user, project, *iid, title, description, url, *a)),
            None => Err(RenderError::UnknownIssueAction),
        },
        InboundEvent::Note { user, project, note, url, target } => Ok(
            render_note(user, project, note, url, target),
        ),
        InboundEvent::MergeRequest { user, project, iid, url, action } => match action {
            Some(a) => Ok(render_mr(user, project, *iid, url, *a)),
            None => Err(RenderError::UnknownMrAction),
        },
        InboundEvent::Build => Ok(String::from_str("Unsupported action build")),
        InboundEvent::Pipeline => Ok(String::from_str("Unsupported action pipeline")),
        InboundEvent::WikiPage => Ok(String::from_str("Unsupported action wiki page")),
        InboundEvent::Unrecognized { error } => Ok(error.clone()),
    }
}

} // verus!
