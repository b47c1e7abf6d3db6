//! The chat provider's side: message targets, request payloads and the
//! reading of the provider's reply.
use vstd::prelude::*;
use vstd::string::*;

use crate::text::same_text;
use crate::webhook::Webhook;

verus! {

/// The kind of chat a message goes to.
#[derive(Debug, Clone, Copy, PartialEq, Eq, Structural)]
pub enum SimpleMessageTarget {
    Group,
    Private,
}

/// The target that a route's `target` setting names: `"group"` is a group
/// chat and every other setting a private chat.
pub open spec fn target_of(name: Seq<char>) -> SimpleMessageTarget {
    if name == "group"@ {
        SimpleMessageTarget::Group
    } else {
        SimpleMessageTarget::Private
    }
}

impl SimpleMessageTarget {
    /// Reads a target setting: `Some` exactly for `"group"` and `"private"`.
    pub fn parse(name: &str) -> (r: Option<SimpleMessageTarget>)
        ensures
            r == (if name@ == "group"@ {
                Some(SimpleMessageTarget::Group)
            } else if name@ == "private"@ {
                Some(SimpleMessageTarget::Private)
            } else {
                None
            }),
    {
        if same_text(name, "group") {
            Some(SimpleMessageTarget::Group)
        } else if same_text(name, "private") {
            Some(SimpleMessageTarget::Private)
        } else {
            None
        }
    }

    /// The setting that names this target.
    pub fn name(&self) -> (r: &'static str)
        ensures
            r@ == (match self {
                SimpleMessageTarget::Group => "group"@,
                SimpleMessageTarget::Private => "private"@,
            }),
    {
        match self {
            SimpleMessageTarget::Group => "group",
            SimpleMessageTarget::Private => "private",
        }
    }
}

/// A rendered message together with where it goes.
#[derive(Debug)]
pub struct SimpleMessage {
    pub to: i64,
    pub target: SimpleMessageTarget,
    pub content: String,
}

impl SimpleMessage {
    /// An empty message to the destination of `webhook`.
    pub fn init(webhook: &Webhook) -> (r: SimpleMessage)
        ensures
            r.to == webhook.to,
            r.target == target_of(webhook.target@),
            r.content@ == Seq::<char>::empty(),
    {
        let target = match SimpleMessageTarget::parse(webhook.target.as_str()) {
            Some(t) => t,
            None => SimpleMessageTarget::Private,
        };
        SimpleMessage { to: webhook.to, target, content: String::new() }
    }
}

/// The payload that sends a message to one user.
#[derive(Debug)]
pub struct SendPrivateMessage {
    pub user_id: i64,
    pub group_id: Option<i64>,
    pub message: String,
    pub auto_escape: bool,
}

impl SendPrivateMessage {
    /// The payload that sends `message` to user `user_id`, unescaped.
    pub fn simple(user_id: i64, message: String) -> (r: Self)
        ensures
            r.user_id == user_id,
            r.group_id.is_none(),
            r.message@ == message@,
            !r.auto_escape,
    {
        SendPrivateMessage { user_id, group_id: None, message, auto_escape: false }
    }
}

impl From<SimpleMessage> for SendPrivateMessage {
    fn from(msg: SimpleMessage) -> (r: Self) {
        SendPrivateMessage { user_id: msg.to, group_id: None, message: msg.content, auto_escape: false }
    }
}

impl vstd::std_specs::convert::FromSpecImpl<SimpleMessage> for SendPrivateMessage {
    open spec fn obeys_from_spec() -> bool {
        true
    }

    open spec fn from_spec(msg: SimpleMessage) -> Self {
        SendPrivateMessage { user_id: msg.to, group_id: None, message: msg.content, auto_escape: false }
    }
}

/// The payload that sends a message to a group chat.
#[derive(Debug)]
pub struct SendGroupMessage {
    pub group_id: i64,
    pub message: String,
    pub auto_escape: bool,
}

impl SendGroupMessage {
    /// The payload that sends `message` to group `group_id`, unescaped.
    pub fn simple(group_id: i64, message: String) -> (r: Self)
        ensures
            r.group_id == group_id,
            r.message@ == message@,
            !r.auto_escape,
    {
        SendGroupMessage { group_id, message, auto_escape: false }
    }
}

impl From<SimpleMessage> for SendGroupMessage {
    fn from(msg: SimpleMessage) -> (r: Self) {
        SendGroupMessage { group_id: msg.to, message: msg.content, auto_escape: false }
    }
}

impl vstd::std_specs::convert::FromSpecImpl<SimpleMessage> for SendGroupMessage {
    open spec fn obeys_from_spec() -> bool {
        true
    }

    open spec fn from_spec(msg: SimpleMessage) -> Self {
        SendGroupMessage { group_id: msg.to, message: msg.content, auto_escape: false }
    }
}

/// The provider's reply to a send request.
#[derive(Debug)]
pub struct SendMessageResponse {
    pub data: SendMessageResponseData,
    pub retcode: i32,
    pub status: String,
}

/// The data part of the provider's reply to a send request.
#[derive(Debug, Clone, Copy, PartialEq, Eq, Structural)]
pub struct SendMessageResponseData {
    pub message_id: i32,
}

/// The provider's reply to a version probe.
#[derive(Debug)]
pub struct OnebotAboutResponse {
    pub data: OnebotAbout,
    pub retcode: i32,
    pub status: String,
}

/// What the provider says of itself.
#[derive(Debug)]
pub struct OnebotAbout {
    pub app_name: String,
    pub app_version: String,
    pub protocol: i32,
}

/// The path of the provider's version probe.
pub fn version_info_path() -> (r: &'static str)
    ensures
        r@ == "/get_version_info"@,
{
    "/get_version_info"
}

/// The address of the provider endpoint `path` under the base address `base`.
pub fn get_api(base: &str, path: &str) -> (r: String)
    ensures
        r@ == base@ + path@,
{
    let mut r = String::from_str(base);
    r.append(path);
    r
}

/// A send request, shaped for the kind of chat it goes to.
#[derive(Debug)]
pub enum OutboundRequest {
    Private(SendPrivateMessage),
    Group(SendGroupMessage),
}

/// The request that delivers `msg`.
pub open spec fn request_for(msg: SimpleMessage) -> OutboundRequest {
    match msg.target {
        SimpleMessageTarget::Private => OutboundRequest::Private(
            SendPrivateMessage { user_id: msg.to, group_id: None, message: msg.content, auto_escape: false },
        ),
        SimpleMessageTarget::Group => OutboundRequest::Group(
            SendGroupMessage { group_id: msg.to, message: msg.content, auto_escape: false },
        ),
    }
}

impl OutboundRequest {
    /// The request that delivers `msg`: a private payload for a private
    /// target, a group payload for a group.
    pub fn for_message(msg: SimpleMessage) -> (r: OutboundRequest)
        ensures
            r == request_for(msg),
    {
        match msg.target {
            SimpleMessageTarget::Private => OutboundRequest::Private(SendPrivateMessage::from(msg)),
            SimpleMessageTarget::Group => OutboundRequest::Group(SendGroupMessage::from(msg)),
        }
    }

    /// The provider path that takes this request.
    pub fn path(&self) -> (r: &'static str)
        ensures
            r@ == (match self {
                OutboundRequest::Private(_) => "/send_private_msg"@,
                OutboundRequest::Group(_) => "/send_group_msg"@,
            }),
    {
        match self {
            OutboundRequest::Private(_) => "/send_private_msg",
            OutboundRequest::Group(_) => "/send_group_msg",
        }
    }
}

/// What came of one delivery.
#[derive(Debug, Clone, Copy, PartialEq, Eq, Structural)]
pub struct DeliveryOutcome {
    pub success: bool,
    pub message_id: Option<i32>,
}

/// The outcome of a delivery whose reply, if the call went through and the
/// reply could be read, is `reply`.
pub fn send_message_result(reply: Option<SendMessageResponse>) -> (r: DeliveryOutcome)
    ensures
        r.success == reply.is_some(),
        r.message_id == (match reply {
            Some(resp) => Some(resp.data.message_id),
            None => None,
        }),
{
    match reply {
        Some(resp) => DeliveryOutcome { success: true, message_id: Some(resp.data.message_id) },
        None => DeliveryOutcome { success: false, message_id: None },
    }
}

} // verus!
