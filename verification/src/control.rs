use crate::frame::Frame;
use crate::text::str_eq;
use vstd::prelude::*;

verus! {

/// The text of the frame that tells a Voyager that its control message had
/// no Horizon to go to.
pub const HORIZON_OFFLINE: &'static str =
    "{\"code\":\"horizon_offline\",\"message\":\"Horizon is not connected for this session\",\"type\":\"error\",\"v\":1}";

/// What stands before the session id in a `session_assigned` frame.
pub const SESSION_ASSIGNED_HEAD: &'static str = "{\"sessionId\":";

/// What stands behind the session id in a `session_assigned` frame.
pub const SESSION_ASSIGNED_TAIL: &'static str = ",\"type\":\"session_assigned\",\"v\":1}";

/// The member of a message that names its type.
pub const TYPE_MEMBER: &'static str = "type";

/// The string that the JSON document `text` holds under `key` at its top
/// level; `None` where `text` is no JSON, no object, has no such member,
/// or holds something other than a string there.
pub uninterp spec fn json_string_member(text: Seq<char>, key: Seq<char>) -> Option<Seq<char>>;

/// `text` written as a JSON string: in double quotes, escaped.
pub uninterp spec fn json_quoted(text: Seq<char>) -> Seq<char>;

/// Whether a JSON string holds `c` in another form than `c` itself: the
/// double quote, the backslash and the control characters below the space.
pub open spec fn is_escaped(c: char) -> bool {
    c == '"' || c == '\\' || c < ' '
}

/// Whether `text` goes into a JSON string as it stands.
pub open spec fn is_plain(text: Seq<char>) -> bool {
    forall|i: int| 0 <= i < text.len() ==> !is_escaped(#[trigger] text[i])
}

/// `text` between double quotes.
pub open spec fn in_quotes(text: Seq<char>) -> Seq<char> {
    seq!['"'] + text + seq!['"']
}

/// Parses `text` with `serde_json::from_str` and looks `key` up with
/// `Value::get`, which answers only for an object that has the member.
/// The member is handed out if it is a string. The contract gives that
/// outcome its name and claims nothing else.
#[verifier::external_body]
fn string_member(text: &str, key: &str) -> (member: Option<String>)
    ensures
        member.deep_view() == json_string_member(text@, key@),
{
    match serde_json::from_str::<serde_json::Value>(text) {
        Ok(value) => match value.get(key) {
            Some(serde_json::Value::String(s)) => Some(s.clone()),
            _ => None,
        },
        Err(_) => None,
    }
}

/// Writes `text` as serde_json writes a `Value::String`. The contract gives
/// the outcome its name, and says what it is where serde_json escapes
/// nothing: the text between double quotes.
#[verifier::external_body]
fn quote(text: &str) -> (quoted: String)
    ensures
        quoted@ == json_quoted(text@),
        is_plain(text@) ==> quoted@ == in_quotes(text@),
{
    serde_json::Value::String(text.to_owned()).to_string()
}

/// The message types by which a Voyager asks something of the Horizon.
pub open spec fn is_control(name: Seq<char>) -> bool {
    ||| name == "list"@
    ||| name == "create"@
    ||| name == "close"@
    ||| name == "stdin"@
    ||| name == "resize"@
}

/// Whether a message of type `name` asks something of the Horizon, so that
/// its sender is owed an answer when there is none.
pub fn is_control_type(name: &str) -> (b: bool)
    ensures
        b == is_control(name@),
{
    str_eq(name, "list") || str_eq(name, "create") || str_eq(name, "close") || str_eq(
        name,
        "stdin",
    ) || str_eq(name, "resize")
}

/// The frame that tells a Voyager that no Horizon is attached.
pub fn horizon_offline_frame() -> (frame: Frame)
    ensures
        frame matches Frame::Text(text) && text@ == HORIZON_OFFLINE@,
{
    Frame::Text(HORIZON_OFFLINE.to_owned())
}

/// What a message is owed whose type member is `type_member`, when no
/// Horizon is attached: the offline notice for a control type, nothing
/// otherwise.
pub fn offline_reply(type_member: &Option<String>) -> (reply: Option<Frame>)
    ensures
        match reply {
            Some(frame) => {
                &&& type_member matches Some(name)
                &&& is_control(name@)
                &&& frame matches Frame::Text(text)
                &&& text@ == HORIZON_OFFLINE@
            },
            None => !(type_member matches Some(name) && is_control(name@)),
        },
{
    match type_member {
        Some(name) => if is_control_type(name.as_str()) {
            Some(horizon_offline_frame())
        } else {
            None
        },
        None => None,
    }
}

/// Whether `frame` is a text frame that holds a JSON object whose `type` is
/// a control type.
pub open spec fn is_control_intent(frame: Frame) -> bool {
    frame matches Frame::Text(text) && json_string_member(text@, TYPE_MEMBER@) matches Some(name)
        && is_control(name)
}

/// The answer to a Voyager's frame that found no Horizon: the offline
/// notice if the frame shows control intent, nothing for any other frame.
pub fn build_no_horizon_reply(frame: &Frame) -> (reply: Option<Frame>)
    ensures
        reply is Some == is_control_intent(*frame),
        reply matches Some(notice) ==> notice matches Frame::Text(text) && text@
            == HORIZON_OFFLINE@,
{
    match frame {
        Frame::Text(text) => {
            let type_member = string_member(text.as_str(), TYPE_MEMBER);
            offline_reply(&type_member)
        },
        _ => None,
    }
}

/// The text of a `session_assigned` frame around an id that is already
/// written as a JSON string.
pub fn session_assigned_text(quoted_id: &str) -> (text: String)
    ensures
        text@ == SESSION_ASSIGNED_HEAD@ + quoted_id@ + SESSION_ASSIGNED_TAIL@,
{
    let mut text = SESSION_ASSIGNED_HEAD.to_owned();
    text.append(quoted_id);
    text.append(SESSION_ASSIGNED_TAIL);
    text
}

/// The frame that tells a Horizon which session it has joined. An id that
/// needs no escaping, as every generated id, stands in it between double
/// quotes.
pub fn session_assigned_frame(session_id: &str) -> (frame: Frame)
    ensures
        frame matches Frame::Text(text) && text@ == SESSION_ASSIGNED_HEAD@ + json_quoted(
            session_id@,
        ) + SESSION_ASSIGNED_TAIL@,
        is_plain(session_id@) ==> (frame matches Frame::Text(text) && text@
            == SESSION_ASSIGNED_HEAD@ + in_quotes(session_id@) + SESSION_ASSIGNED_TAIL@),
{
    let quoted = quote(session_id);
    Frame::Text(session_assigned_text(quoted.as_str()))
}

} // verus!
