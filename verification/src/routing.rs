use vstd::prelude::*;
use crate::resource::{ascii_lower, parse_url, url_accepted};

verus! {

/// The kinds of conversation the router distinguishes.
#[derive(Clone, Copy, Debug, PartialEq, Eq, Structural)]
pub enum ChatKind {
    /// A one-to-one conversation.
    Private,
    /// A group conversation.
    Group,
    /// Anything else (channels and the like): never served.
    Other,
}

/// A command the boundary parser extracted from a message: its name, the
/// bot name it was directed at (if any), and its argument (if any).
pub struct Command {
    pub name: Vec<u8>,
    pub via: Option<Vec<u8>>,
    pub arg: Option<String>,
}

/// What the router decides to do with an inbound message.
pub enum MessageAction {
    /// Not for this bot: no reply at all.
    Ignore,
    /// Reply with the greeting.
    Greet,
    /// An upload command without an argument: ask for one.
    AskForUrl,
    /// An upload command whose argument is not an absolute URL.
    RejectInvalidUrl(url::ParseError),
    /// Begin a transfer of this resource.
    BeginTransfer(url::Url),
}

/// The same decision without payloads, for stating the router's contract.
#[derive(Clone, Copy, Debug, PartialEq, Eq, Structural)]
pub enum RoutePlan {
    Ignore,
    Greet,
    AskForUrl,
    RejectUrl,
    Transfer,
}

/// Every byte folded to ASCII lower case.
pub open spec fn lower_bytes(s: Seq<u8>) -> Seq<u8> {
    s.map_values(|b: u8| ascii_lower(b))
}

/// `start`, as the router compares command names.
pub open spec fn start_name() -> Seq<u8> {
    seq![115u8, 116u8, 97u8, 114u8, 116u8]
}

/// `upload`, as the router compares command names.
pub open spec fn upload_name() -> Seq<u8> {
    seq![117u8, 112u8, 108u8, 111u8, 97u8, 100u8]
}

/// Whether a command was directed at some other bot: it names one, and the
/// name differs from ours when both are folded to lower case.
pub open spec fn addressed_elsewhere(via: Option<Vec<u8>>, me: Seq<u8>) -> bool {
    match via {
        Some(v) => lower_bytes(v@) != lower_bytes(me),
        None => false,
    }
}

/// A bare message in a one-to-one conversation that parses as a URL starts
/// a transfer; everything else is ignored.
pub open spec fn bare_text_plan(kind: ChatKind, text_ok: bool) -> RoutePlan {
    if kind == ChatKind::Private && text_ok {
        RoutePlan::Transfer
    } else {
        RoutePlan::Ignore
    }
}

/// The router's decision table: serve only private and group chats; drop
/// commands directed at another bot; drop a bare `start` in a group; greet
/// on `start`; on `upload`, demand an argument and accept it only as an
/// absolute URL; let anything else fall through to the bare-URL rule.
pub open spec fn message_plan(
    kind: ChatKind,
    cmd: Option<Command>,
    me: Seq<u8>,
    text_ok: bool,
) -> RoutePlan {
    if kind == ChatKind::Other {
        RoutePlan::Ignore
    } else {
        match cmd {
            Some(c) => if addressed_elsewhere(c.via, me) {
                RoutePlan::Ignore
            } else if kind == ChatKind::Group && c.name@ == start_name() && c.via is None {
                RoutePlan::Ignore
            } else if c.name@ == start_name() {
                RoutePlan::Greet
            } else if c.name@ == upload_name() {
                match c.arg {
                    None => RoutePlan::AskForUrl,
                    Some(a) => if url_accepted(a@) {
                        RoutePlan::Transfer
                    } else {
                        RoutePlan::RejectUrl
                    },
                }
            } else {
                bare_text_plan(kind, text_ok)
            },
            None => bare_text_plan(kind, text_ok),
        }
    }
}

/// The plan an action realises.
pub open spec fn plan_of(action: MessageAction) -> RoutePlan {
    match action {
        MessageAction::Ignore => RoutePlan::Ignore,
        MessageAction::Greet => RoutePlan::Greet,
        MessageAction::AskForUrl => RoutePlan::AskForUrl,
        MessageAction::RejectInvalidUrl(_) => RoutePlan::RejectUrl,
        MessageAction::BeginTransfer(_) => RoutePlan::Transfer,
    }
}

/// Byte-for-byte equality.
fn bytes_eq(a: &Vec<u8>, b: &Vec<u8>) -> (r: bool)
    ensures
        r == (a@ == b@),
{
    if a.len() != b.len() {
        proof {
            assert(a@.len() != b@.len());
        }
        return false;
    }
    let mut i: usize = 0;
    while i < a.len()
        invariant
            i <= a.len(),
            a.len() == b.len(),
            forall|j: int| 0 <= j < i ==> a@[j] == b@[j],
        decreases a.len() - i,
    {
        if a[i] != b[i] {
            return false;
        }
        i = i + 1;
    }
    proof {
        assert(a@ =~= b@);
    }
    true
}

/// Equality after folding both sides to ASCII lower case.
fn ascii_eq_ignore_case(a: &Vec<u8>, b: &Vec<u8>) -> (r: bool)
    ensures
        r == (lower_bytes(a@) == lower_bytes(b@)),
{
    if a.len() != b.len() {
        proof {
            assert(lower_bytes(a@).len() != lower_bytes(b@).len());
        }
        return false;
    }
    let mut i: usize = 0;
    while i < a.len()
        invariant
            i <= a.len(),
            a.len() == b.len(),
            forall|j: int| 0 <= j < i ==> lower_bytes(a@)[j] == lower_bytes(b@)[j],
        decreases a.len() - i,
    {
        let la = crate::resource::ascii_lower_byte(a[i]);
        let lb = crate::resource::ascii_lower_byte(b[i]);
        if la != lb {
            proof {
                assert(lower_bytes(a@)[i as int] != lower_bytes(b@)[i as int]);
            }
            return false;
        }
        i = i + 1;
    }
    proof {
        assert(lower_bytes(a@) =~= lower_bytes(b@));
    }
    true
}

/// Routes one inbound message. `me` is this bot's username (empty when the
/// platform reports none); `text` is the raw message text, tried as a bare
/// URL where the decision table calls for it.
pub fn route_message(kind: ChatKind, cmd: Option<Command>, me: &Vec<u8>, text: &str) -> (action:
    MessageAction)
    ensures
        plan_of(action) == message_plan(kind, cmd, me@, url_accepted(text@)),
{
    if matches!(kind, ChatKind::Other) {
        return MessageAction::Ignore;
    }
    match cmd {
        Some(c) => {
            let elsewhere = match &c.via {
                Some(v) => !ascii_eq_ignore_case(v, me),
                None => false,
            };
            if elsewhere {
                return MessageAction::Ignore;
            }
            let start: Vec<u8> = vec![115u8, 116u8, 97u8, 114u8, 116u8];
            let upload: Vec<u8> = vec![117u8, 112u8, 108u8, 111u8, 97u8, 100u8];
            proof {
                assert(start@ =~= start_name());
                assert(upload@ =~= upload_name());
            }
            let is_start = bytes_eq(&c.name, &start);
            if matches!(kind, ChatKind::Group) && is_start && c.via.is_none() {
                return MessageAction::Ignore;
            }
            if is_start {
                return MessageAction::Greet;
            }
            if bytes_eq(&c.name, &upload) {
                match &c.arg {
                    None => MessageAction::AskForUrl,
                    Some(a) => match parse_url(a.as_str()) {
                        Ok(u) => MessageAction::BeginTransfer(u),
                        Err(e) => MessageAction::RejectInvalidUrl(e),
                    },
                }
            } else {
                route_bare_text(kind, text)
            }
        }
        None => route_bare_text(kind, text),
    }
}

/// The bare-URL rule: in a one-to-one conversation any message that parses
/// as an absolute URL starts a transfer.
fn route_bare_text(kind: ChatKind, text: &str) -> (action: MessageAction)
    requires
        kind != ChatKind::Other,
    ensures
        plan_of(action) == bare_text_plan(kind, url_accepted(text@)),
{
    if matches!(kind, ChatKind::Private) {
        match parse_url(text) {
            Ok(u) => MessageAction::BeginTransfer(u),
            Err(_) => MessageAction::Ignore,
        }
    } else {
        MessageAction::Ignore
    }
}

/// The control payload that activates a cancel.
pub open spec fn cancel_payload() -> Seq<u8> {
    seq![99u8, 97u8, 110u8, 99u8, 101u8, 108u8]
}

/// Whether a control activation's payload is the cancel signal; every other
/// payload is ignored.
pub fn is_cancel_payload(data: &Vec<u8>) -> (r: bool)
    ensures
        r == (data@ == cancel_payload()),
{
    let cancel: Vec<u8> = vec![99u8, 97u8, 110u8, 99u8, 101u8, 108u8];
    proof {
        assert(cancel@ =~= cancel_payload());
    }
    bytes_eq(data, &cancel)
}

} // verus!
