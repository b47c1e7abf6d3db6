use gitlab_relay::bot::{
    get_api, send_message_result, OutboundRequest, SendGroupMessage, SendMessageResponse,
    SendMessageResponseData, SendPrivateMessage, SimpleMessage, SimpleMessageTarget,
};
use gitlab_relay::event::{
    modification_suffix, render, InboundEvent, IssueAction, MergeRequestAction, NoteTarget,
    PushCommit, RenderError,
};
use gitlab_relay::text::{first_line_of, short_id_of};
use gitlab_relay::webhook::{authorize, handle, AppState, AuthOutcome, Webhook};

fn route(target: &str, to: i64, secret: &str) -> Webhook {
    Webhook { target: target.to_string(), to, secret: secret.to_string() }
}

fn table() -> AppState {
    AppState::new(vec![
        ("open".to_string(), route("group", 1001, "")),
        ("locked".to_string(), route("private", 2002, "s3cret")),
    ])
}

fn commit(id: &str, message: &str, url: &str, added: u64, modified: u64, removed: u64) -> PushCommit {
    PushCommit {
        id: id.to_string(),
        message: message.to_string(),
        url: url.to_string(),
        added,
        modified,
        removed,
    }
}

fn push(git_ref: &str, commits: Vec<PushCommit>) -> InboundEvent {
    InboundEvent::Push {
        user: "alice".to_string(),
        project: "group/proj".to_string(),
        web_url: "https://git.example/group/proj".to_string(),
        git_ref: git_ref.to_string(),
        commits,
    }
}

fn issue(action: Option<IssueAction>, description: Option<&str>, url: Option<&str>) -> InboundEvent {
    InboundEvent::Issue {
        user: "bob".to_string(),
        project: "group/proj".to_string(),
        iid: 42,
        title: "Crash on start".to_string(),
        description: description.map(|d| d.to_string()),
        url: url.map(|u| u.to_string()),
        action,
    }
}

fn note(target: NoteTarget) -> InboundEvent {
    InboundEvent::Note {
        user: "carol".to_string(),
        project: "group/proj".to_string(),
        note: "looks good".to_string(),
        url: "https://git.example/n/1".to_string(),
        target,
    }
}

fn text_of(e: &InboundEvent) -> String {
    render(e).unwrap()
}

#[test]
fn empty_secret_accepts_any_token() {
    let state = table();
    for token in [None, Some(""), Some("anything"), Some("s3cret")] {
        let d = handle(&state, "open", token, &InboundEvent::Build);
        assert_eq!(d.reply.status, 200);
        assert_eq!(d.reply.body, "success");
        assert!(d.delivery.is_some());
    }
    assert_eq!(authorize(&route("group", 1, ""), None), AuthOutcome::Accepted);
}

#[test]
fn secret_requires_exact_token() {
    let state = table();
    let d = handle(&state, "locked", None, &InboundEvent::Build);
    assert_eq!(d.reply.status, 401);
    assert_eq!(d.reply.body, "unauthorized (empty token)");
    assert!(d.delivery.is_none());
    let d = handle(&state, "locked", Some("s3cre"), &InboundEvent::Build);
    assert_eq!(d.reply.status, 401);
    assert_eq!(d.reply.body, "unauthorized (incorrect token)");
    assert!(d.delivery.is_none());
    let d = handle(&state, "locked", Some("s3cret "), &InboundEvent::Build);
    assert_eq!(d.reply.body, "unauthorized (incorrect token)");
    let d = handle(&state, "locked", Some("s3cret"), &InboundEvent::Build);
    assert_eq!(d.reply.status, 200);
    let m = d.delivery.unwrap();
    assert_eq!(m.to, 2002);
    assert_eq!(m.target, SimpleMessageTarget::Private);
    assert_eq!(m.content, "Unsupported action build");
}

#[test]
fn unknown_identifier_is_not_found() {
    let state = table();
    let d = handle(&state, "missing", Some("s3cret"), &InboundEvent::Build);
    assert_eq!(d.reply.status, 404);
    assert_eq!(d.reply.body, "webhook not found");
    assert!(d.delivery.is_none());
    let d = handle(&AppState::new(vec![]), "open", None, &InboundEvent::Build);
    assert_eq!(d.reply.status, 404);
    assert!(d.delivery.is_none());
}

#[test]
fn push_to_branch_lists_each_commit() {
    let e = push(
        "refs/heads/main",
        vec![
            commit("0123456789abcdef", "Fix parser\n\nlonger body", "https://git.example/c/1", 2, 0, 1),
            commit("fedcba9876543210", "Add docs", "https://git.example/c/2", 0, 3, 0),
        ],
    );
    assert_eq!(
        text_of(&e),
        "Recent commit to group/proj:main by alice\n0123456 Fix parser (2+1-)\nfedcba9 Add docs (3M)\n\nhttps://git.example/c/1"
    );
}

#[test]
fn push_to_branch_without_commits_has_no_url() {
    let e = push("refs/heads/feature/x", vec![]);
    assert_eq!(text_of(&e), "Recent commit to group/proj:feature/x by alice");
}

#[test]
fn modification_suffix_omits_zero_counts() {
    assert_eq!(modification_suffix(2, 0, 1), "2+1-");
    assert_eq!(modification_suffix(0, 0, 0), "");
    assert_eq!(modification_suffix(12, 305, 7), "12+305M7-");
    let e = push("refs/heads/main", vec![commit("abcdefghij", "msg", "u", 0, 0, 0)]);
    assert_eq!(text_of(&e), "Recent commit to group/proj:main by alice\nabcdefg msg ()\n\nu");
}

#[test]
fn tag_push_ends_with_tag_url() {
    let e = push("refs/tags/v1.0", vec![]);
    let text = text_of(&e);
    assert_eq!(text, "New tag v1.0 on group/proj by alice\n\nhttps://git.example/group/proj/-/tags/v1.0");
    assert!(text.ends_with("https://git.example/group/proj/-/tags/v1.0"));
}

#[test]
fn other_ref_push_names_the_ref() {
    let e = push("refs/merge-requests/3/head", vec![commit("0123456789", "m", "u", 1, 0, 0)]);
    assert_eq!(text_of(&e), "New refs/merge-requests/3/head on group/proj by alice");
}

#[test]
fn rendering_twice_is_identical() {
    let e = push("refs/heads/main", vec![commit("0123456789", "one\r\ntwo", "u", 1, 1, 1)]);
    let a = render(&e).unwrap();
    let b = render(&e).unwrap();
    assert_eq!(a.as_bytes(), b.as_bytes());
    let i = issue(None, None, None);
    assert_eq!(render(&i).unwrap_err(), render(&i).unwrap_err());
}

#[test]
fn reopened_issue_with_fallback_url() {
    let state = table();
    let e = issue(Some(IssueAction::Reopen), None, None);
    let d = handle(&state, "open", None, &e);
    assert_eq!(d.reply.status, 200);
    assert_eq!(
        d.delivery.unwrap().content,
        "bob reopened issue group/proj#42\nCrash on start\n\n\nFail to fetch issue url, a bug of GitLab?"
    );
}

#[test]
fn issue_verbs_and_url() {
    let e = issue(Some(IssueAction::Open), Some("steps"), Some("https://git.example/i/42"));
    assert_eq!(
        text_of(&e),
        "bob opened issue group/proj#42\nCrash on start\nsteps\n\nhttps://git.example/i/42"
    );
    let e = issue(Some(IssueAction::Close), Some(""), Some("u"));
    assert!(text_of(&e).starts_with("bob closed issue"));
    let e = issue(Some(IssueAction::Update), None, Some("u"));
    assert!(text_of(&e).starts_with("bob updated issue"));
}

#[test]
fn unknown_issue_action_is_rejected_without_delivery() {
    let state = table();
    let e = issue(None, None, None);
    assert_eq!(render(&e).unwrap_err(), RenderError::UnknownIssueAction);
    let d = handle(&state, "open", None, &e);
    assert_eq!(d.reply.status, 400);
    assert_eq!(d.reply.body, "unknown issue action");
    assert!(d.delivery.is_none());
}

#[test]
fn merge_request_messages() {
    let mr = |action: Option<MergeRequestAction>, url: Option<&str>| InboundEvent::MergeRequest {
        user: "dave".to_string(),
        project: "group/proj".to_string(),
        iid: 7,
        url: url.map(|u| u.to_string()),
        action,
    };
    assert_eq!(
        text_of(&mr(Some(MergeRequestAction::Merge), Some("https://git.example/mr/7"))),
        "dave merged mr group/proj#7\n\nhttps://git.example/mr/7"
    );
    assert_eq!(
        text_of(&mr(Some(MergeRequestAction::Approved), None)),
        "dave approved mr group/proj#7\n\nFail to fetch merge request url, a bug of GitLab?"
    );
    assert!(text_of(&mr(Some(MergeRequestAction::Unapproved), None)).starts_with("dave unapproved mr"));
    assert!(text_of(&mr(Some(MergeRequestAction::Reopen), None)).starts_with("dave reopened mr"));
    let state = table();
    let d = handle(&state, "open", None, &mr(None, None));
    assert_eq!(d.reply.status, 400);
    assert_eq!(d.reply.body, "unknown mr action");
    assert!(d.delivery.is_none());
    assert_eq!(render(&mr(None, None)).unwrap_err(), RenderError::UnknownMrAction);
}

#[test]
fn note_messages() {
    assert_eq!(
        text_of(&note(NoteTarget::Commit { commit_id: "0123456789abcdef".to_string() })),
        "carol commented on group/proj@0123456\nlooks good\n\nhttps://git.example/n/1"
    );
    assert_eq!(
        text_of(&note(NoteTarget::Issue { iid: 1234 })),
        "carol commented on group/proj#1234\nlooks good\n\nhttps://git.example/n/1"
    );
    assert_eq!(
        text_of(&note(NoteTarget::MergeRequest { iid: 0 })),
        "carol commented on group/proj#0\nlooks good\n\nhttps://git.example/n/1"
    );
    assert_eq!(
        text_of(&note(NoteTarget::Snippet { title: "notes.txt".to_string() })),
        "carol commented on snippet notes.txt\nlooks good\n\nhttps://git.example/n/1"
    );
}

#[test]
fn unsupported_events_are_still_delivered() {
    assert_eq!(text_of(&InboundEvent::Build), "Unsupported action build");
    assert_eq!(text_of(&InboundEvent::Pipeline), "Unsupported action pipeline");
    assert_eq!(text_of(&InboundEvent::WikiPage), "Unsupported action wiki page");
    let d = handle(&table(), "open", None, &InboundEvent::WikiPage);
    assert_eq!(d.reply.status, 200);
    assert_eq!(d.delivery.unwrap().content, "Unsupported action wiki page");
}

#[test]
fn unrecognized_event_delivers_reason_and_fails() {
    let e = InboundEvent::Unrecognized { error: "missing field `object_kind`".to_string() };
    let d = handle(&table(), "open", None, &e);
    assert_eq!(d.reply.status, 400);
    assert_eq!(d.reply.body, "unknown event");
    let m = d.delivery.unwrap();
    assert_eq!(m.content, "missing field `object_kind`");
    assert_eq!(m.to, 1001);
    assert_eq!(m.target, SimpleMessageTarget::Group);
}

#[test]
fn message_target_from_route() {
    let m = SimpleMessage::init(&route("group", 5, ""));
    assert_eq!(m.target, SimpleMessageTarget::Group);
    assert_eq!(m.to, 5);
    assert_eq!(m.content, "");
    assert_eq!(SimpleMessage::init(&route("private", 6, "")).target, SimpleMessageTarget::Private);
    assert_eq!(SimpleMessage::init(&route("Group", 6, "")).target, SimpleMessageTarget::Private);
    assert_eq!(SimpleMessageTarget::parse("channel"), None);
    assert_eq!(SimpleMessageTarget::Group.name(), "group");
}

#[test]
fn payloads_by_target() {
    let p = SendPrivateMessage::simple(9, "hi".to_string());
    assert_eq!((p.user_id, p.group_id, p.message.as_str(), p.auto_escape), (9, None, "hi", false));
    let g = SendGroupMessage::simple(8, "yo".to_string());
    assert_eq!((g.group_id, g.message.as_str(), g.auto_escape), (8, "yo", false));
    let msg = SimpleMessage { to: 3, target: SimpleMessageTarget::Group, content: "x".to_string() };
    let r = OutboundRequest::for_message(msg);
    assert_eq!(r.path(), "/send_group_msg");
    match r {
        OutboundRequest::Group(g) => assert_eq!((g.group_id, g.message.as_str()), (3, "x")),
        OutboundRequest::Private(_) => panic!("expected a group payload"),
    }
    let msg = SimpleMessage { to: 4, target: SimpleMessageTarget::Private, content: "y".to_string() };
    let r = OutboundRequest::for_message(msg);
    assert_eq!(r.path(), "/send_private_msg");
    match r {
        OutboundRequest::Private(p) => assert_eq!((p.user_id, p.group_id, p.message.as_str()), (4, None, "y")),
        OutboundRequest::Group(_) => panic!("expected a private payload"),
    }
}

#[test]
fn api_address_and_outcome() {
    assert_eq!(get_api("http://127.0.0.1:5700", "/send_group_msg"), "http://127.0.0.1:5700/send_group_msg");
    let ok = send_message_result(Some(SendMessageResponse {
        data: SendMessageResponseData { message_id: 77 },
        retcode: 0,
        status: "ok".to_string(),
    }));
    assert!(ok.success);
    assert_eq!(ok.message_id, Some(77));
    let failed = send_message_result(None);
    assert!(!failed.success);
    assert_eq!(failed.message_id, None);
}

#[test]
fn text_helpers() {
    assert_eq!(first_line_of("one\r\ntwo"), "one");
    assert_eq!(first_line_of("only\r"), "only\r");
    assert_eq!(first_line_of(""), "");
    assert_eq!(first_line_of("\nrest"), "");
    assert_eq!(short_id_of("abc"), "abc");
    assert_eq!(short_id_of("0123456789"), "0123456");
}

#[test]
fn first_matching_route_wins() {
    let state = AppState::new(vec![
        ("a".to_string(), route("group", 1, "")),
        ("a".to_string(), route("group", 2, "")),
    ]);
    assert_eq!(state.lookup("a").unwrap().to, 1);
    assert!(state.lookup("b").is_none());
}
