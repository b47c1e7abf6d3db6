//! Routes, authentication and the handling of one webhook call.
use vstd::prelude::*;
use vstd::string::*;

use crate::bot::{target_of, SimpleMessage, SimpleMessageTarget};
use crate::event::{render, rendered, InboundEvent, RenderError};
use crate::text::same_text;

verus! {

/// A route: where the events of one webhook go, and the secret that
/// callers must present (none when empty).
#[derive(Debug)]
pub struct Webhook {
    pub target: String,
    pub to: i64,
    pub secret: String,
}

/// The routing table: each entry binds an identifier to a route. An
/// identifier names the first entry that carries it.
#[derive(Debug)]
pub struct AppState {
    pub webhooks: Vec<(String, Webhook)>,
}

/// The first index at or after `i` whose entry carries `id`.
pub open spec fn route_index_from(routes: Seq<(String, Webhook)>, id: Seq<char>, i: int) -> Option<int>
    decreases routes.len() - i,
{
    if i < 0 || i >= routes.len() {
        None
    } else if routes[i].0@ == id {
        Some(i)
    } else {
        route_index_from(routes, id, i + 1)
    }
}

/// The route that `id` names in `routes`, if any.
pub open spec fn route_of(routes: Seq<(String, Webhook)>, id: Seq<char>) -> Option<Webhook> {
    match route_index_from(routes, id, 0) {
        Some(k) => Some(routes[k].1),
        None => None,
    }
}

impl AppState {
    /// A routing table of the given entries.
    pub fn new(webhooks: Vec<(String, Webhook)>) -> (r: AppState)
        ensures
            r.webhooks@ == webhooks@,
    {
        AppState { webhooks }
    }

    /// The route that `id` names.
    pub fn lookup(&self, id: &str) -> (r: Option<&Webhook>)
        ensures
            match r {
                Some(w) => route_of(self.webhooks@, id@) == Some(*w),
                None => route_of(self.webhooks@, id@).is_none(),
            },
    {
        let mut i: usize = 0;
        while i < self.webhooks.len()
            invariant
                i <= self.webhooks@.len(),
                route_index_from(self.webhooks@, id@, 0) == route_index_from(self.webhooks@, id@, i as int),
            decreases self.webhooks@.len() - i,
        {
            if same_text(self.webhooks[i].0.as_str(), id) {
                return Some(&self.webhooks[i].1);
            }
            i = i + 1;
        }
        None
    }
}

/// The verdict on a caller's token.
#[derive(Debug, Clone, Copy, PartialEq, Eq, Structural)]
pub enum AuthOutcome {
    Accepted,
    MissingToken,
    IncorrectToken,
}

/// The characters of a token, if one was given.
pub open spec fn token_view(token: Option<&str>) -> Option<Seq<char>> {
    match token {
        Some(t) => Some(t@),
        None => None,
    }
}

/// The verdict on `token` for a route with `secret`: an empty secret admits
/// every caller; any other admits exactly the callers that present it.
pub open spec fn auth_of(secret: Seq<char>, token: Option<Seq<char>>) -> AuthOutcome {
    if secret.len() == 0 {
        AuthOutcome::Accepted
    } else {
        match token {
            None => AuthOutcome::MissingToken,
            Some(t) => if t == secret {
                AuthOutcome::Accepted
            } else {
                AuthOutcome::IncorrectToken
            },
        }
    }
}

/// Judges the token a caller presented for `webhook`. The comparison is a
/// plain one, not made in constant time.
pub fn authorize(webhook: &Webhook, token: Option<&str>) -> (r: AuthOutcome)
    ensures
        r == auth_of(webhook.secret@, token_view(token)),
{
    if webhook.secret.as_str().unicode_len() == 0 {
        return AuthOutcome::Accepted;
    }
    match token {
        None => AuthOutcome::MissingToken,
        Some(t) => if same_text(webhook.secret.as_str(), t) {
            AuthOutcome::Accepted
        } else {
            AuthOutcome::IncorrectToken
        },
    }
}

/// The answer to a webhook call.
#[derive(Debug)]
pub struct Reply {
    pub status: u16,
    pub body: String,
}

/// What handling one call decides: the answer, and the message to deliver
/// before answering, if any.
#[derive(Debug)]
pub struct Dispatch {
    pub reply: Reply,
    pub delivery: Option<SimpleMessage>,
}

/// The status and body of the answer to a call.
pub open spec fn expected_reply(
    routes: Seq<(String, Webhook)>,
    id: Seq<char>,
    token: Option<Seq<char>>,
    event: InboundEvent,
) -> (u16, Seq<char>) {
    match route_of(routes, id) {
        None => (404, "webhook not found"@),
        Some(w) => match auth_of(w.secret@, token) {
            AuthOutcome::MissingToken => (401, "unauthorized (empty token)"@),
            AuthOutcome::IncorrectToken => (401, "unauthorized (incorrect token)"@),
            AuthOutcome::Accepted => match rendered(event) {
                Err(RenderError::UnknownIssueAction) => (400, "unknown issue action"@),
                Err(RenderError::UnknownMrAction) => (400, "unknown mr action"@),
                Ok(_) => if event is Unrecognized {
                    (400, "unknown event"@)
                } else {
                    (200, "success"@)
                },
            },
        },
    }
}

/// The message a call delivers, as destination, kind of chat and text.
pub open spec fn expected_delivery(
    routes: Seq<(String, Webhook)>,
    id: Seq<char>,
    token: Option<Seq<char>>,
    event: InboundEvent,
) -> Option<(i64, SimpleMessageTarget, Seq<char>)> {
    match route_of(routes, id) {
        None => None,
        Some(w) => match auth_of(w.secret@, token) {
            AuthOutcome::Accepted => match rendered(event) {
                Ok(text) => Some((w.to, target_of(w.target@), text)),
                Err(_) => None,
            },
            _ => None,
        },
    }
}

/// Whether `d` is the message described by `want`.
pub open spec fn delivers(d: Option<SimpleMessage>, want: Option<(i64, SimpleMessageTarget, Seq<char>)>) -> bool {
    match (d, want) {
        (None, None) => true,
        (Some(m), Some((to, target, text))) => m.to == to && m.target == target && m.content@ == text,
        _ => false,
    }
}

/// A route with an empty secret admits every caller: whatever token is
/// presented, or none, the call is answered as one without a token, and
/// never with 401.
pub proof fn lemma_empty_secret_admits_any_token(
    routes: Seq<(String, Webhook)>,
    id: Seq<char>,
    w: Webhook,
    token: Option<Seq<char>>,
    event: InboundEvent,
)
    requires
        route_of(routes, id) == Some(w),
        w.secret@.len() == 0,
    ensures
        auth_of(w.secret@, token) == AuthOutcome::Accepted,
        expected_reply(routes, id, token, event).0 != 401,
        expected_reply(routes, id, token, event) == expected_reply(routes, id, None, event),
        expected_delivery(routes, id, token, event) == expected_delivery(routes, id, None, event),
{
}

/// A route with a secret admits exactly the callers that present it; a
/// missing token and a wrong one are each answered with 401 and their own
/// text, and nothing is delivered.
pub proof fn lemma_secret_admits_exactly_its_value(
    routes: Seq<(String, Webhook)>,
    id: Seq<char>,
    w: Webhook,
    token: Option<Seq<char>>,
    event: InboundEvent,
)
    requires
        route_of(routes, id) == Some(w),
        w.secret@.len() > 0,
    ensures
        (auth_of(w.secret@, token) == AuthOutcome::Accepted) <==> (token == Some(w.secret@)),
        (expected_reply(routes, id, token, event).0 != 401) <==> (token == Some(w.secret@)),
        token is None ==> expected_reply(routes, id, token, event) == (
            401u16,
            "unauthorized (empty token)"@,
        ),
        (token is Some && token != Some(w.secret@)) ==> expected_reply(routes, id, token, event) == (
            401u16,
            "unauthorized (incorrect token)"@,
        ),
        token != Some(w.secret@) ==> expected_delivery(routes, id, token, event).is_none(),
{
}

/// A call to an identifier that no route carries is answered with 404 and
/// delivers nothing.
pub proof fn lemma_unknown_identifier_not_found(
    routes: Seq<(String, Webhook)>,
    id: Seq<char>,
    token: Option<Seq<char>>,
    event: InboundEvent,
)
    requires
        route_of(routes, id).is_none(),
    ensures
        expected_reply(routes, id, token, event) == (404u16, "webhook not found"@),
        expected_delivery(routes, id, token, event).is_none(),
{
}

fn reply(status: u16, body: &str) -> (r: Reply)
    ensures
        r.status == status,
        r.body@ == body@,
{
    Reply { status, body: String::from_str(body) }
}

/// Handles a call to webhook `identifier` that presented `token` and carried
/// `event`: finds the route, checks the token, renders the event, and
/// decides the answer and the message to deliver. A payload that could not
/// be read is still delivered, as its reason, and answered with 400.
pub fn handle(state: &AppState, identifier: &str, token: Option<&str>, event: &InboundEvent) -> (r: Dispatch)
    ensures
        r.reply.status == expected_reply(state.webhooks@, identifier@, token_view(token), *event).0,
        r.reply.body@ == expected_reply(state.webhooks@, identifier@, token_view(token), *event).1,
        delivers(r.delivery, expected_delivery(state.webhooks@, identifier@, token_view(token), *event)),
{
    let webhook = match state.lookup(identifier) {
        None => {
            return Dispatch { reply: reply(404, "webhook not found"), delivery: None };
        },
        Some(w) => w,
    };
    match authorize(webhook, token) {
        AuthOutcome::MissingToken => {
            return Dispatch { reply: reply(401, "unauthorized (empty token)"), delivery: None };
        },
        AuthOutcome::IncorrectToken => {
            return Dispatch { reply: reply(401, "unauthorized (incorrect token)"), delivery: None };
        },
        AuthOutcome::Accepted => {},
    }
    let mut message = SimpleMessage::init(webhook);
    match render(event) {
        Err(RenderError::UnknownIssueAction) => {
            Dispatch { reply: reply(400, "unknown issue action"), delivery: None }
        },
        Err(RenderError::UnknownMrAction) => {
            Dispatch { reply: reply(400, "unknown mr action"), delivery: None }
        },
        Ok(text) => {
            message.content = text;
            let answer = match event {
                InboundEvent::Unrecognized { .. } => reply(400, "unknown event"),
                _ => reply(200, "success"),
            };
            Dispatch { reply: answer, delivery: Some(message) }
        },
    }
}

} // verus!
