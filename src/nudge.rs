//! The request shapes that ask for a nudge, and the one message they all
//! become on the wire.

use crate::frame::{ascii_of, body_of, encode, frame_of, json_string_of, push_ascii};
use crate::status::MoMMIError;
use vstd::prelude::*;
use vstd::string::StringExecFns;

verus! {

/// The oldest shape: a flag picks the channel.
#[derive(Clone, Debug)]
pub struct NudgeOld {
    pub admin: Option<bool>,
    pub pass: String,
    pub content: String,
    pub ping: Option<bool>,
}

/// The shape every request is brought to: the channel (`meta`) is named.
#[derive(Clone, Debug)]
pub struct Nudge {
    pub meta: String,
    pub pass: String,
    pub content: String,
    pub ping: Option<bool>,
}

/// A JSON-bodied nudge; its channel comes from the request's path.
#[derive(Clone, Debug)]
pub struct PostNudgeData {
    pub pass: String,
    pub content: String,
    pub ping: Option<bool>,
}

/// One of the three shapes in which a nudge arrives.
#[derive(Clone, Debug)]
pub enum NudgeRequest {
    Old(NudgeOld),
    Named(Nudge),
    Posted(String, PostNudgeData),
}

/// A message ready to be framed: its type, its meta and its payload as JSON text.
#[derive(Clone, Debug)]
pub struct Message {
    pub category: String,
    pub subtopic: String,
    pub payload: Vec<u8>,
}

/// The channel that the old shape's admin flag selects.
pub open spec fn old_meta(admin: Option<bool>) -> Seq<char> {
    if admin == Some(true) {
        "adminhelp"@
    } else {
        "server_status"@
    }
}

/// An absent ping flag means no ping.
pub open spec fn ping_of(ping: Option<bool>) -> bool {
    ping == Some(true)
}

/// The JSON text `{"pass":..,"content":..,"ping":..}` that a nudge carries.
pub open spec fn payload_of(pass: Seq<char>, content: Seq<char>, ping: bool) -> Seq<u8> {
    ascii_of("{\"pass\":"@) + json_string_of(pass) + ascii_of(",\"content\":"@)
        + json_string_of(content) + ascii_of(",\"ping\":"@)
        + ascii_of(if ping { "true"@ } else { "false"@ }) + ascii_of("}"@)
}

impl From<NudgeOld> for Nudge {
    /// The old shape names no channel: an admin request goes to
    /// "adminhelp", anything else to "server_status".
    fn from(legacy: NudgeOld) -> (r: Nudge)
        ensures
            r.meta@ == old_meta(legacy.admin),
            r.pass == legacy.pass,
            r.content == legacy.content,
            r.ping == legacy.ping,
    {
        let meta = match legacy.admin {
            Some(true) => String::from_str("adminhelp"),
            _ => String::from_str("server_status"),
        };
        Nudge { meta, pass: legacy.pass, content: legacy.content, ping: legacy.ping }
    }
}

impl vstd::std_specs::convert::FromSpecImpl<NudgeOld> for Nudge {
    /// The result holds new text, which no spec value of a `String` can
    /// name: the contract of `from` above says what it is.
    open spec fn obeys_from_spec() -> bool {
        false
    }

    open spec fn from_spec(legacy: NudgeOld) -> Nudge {
        vstd::pervasive::arbitrary()
    }
}

impl Nudge {
    /// A JSON-bodied nudge for the channel `meta`.
    pub fn from_post(meta: String, data: &PostNudgeData) -> (r: Nudge)
        ensures
            r.meta == meta,
            r.pass == data.pass,
            r.content == data.content,
            r.ping == data.ping,
    {
        Nudge { meta, pass: data.pass.clone(), ping: data.ping, content: data.content.clone() }
    }

    /// The payload this nudge sends: its password, its text, and whether to ping.
    pub fn payload(&self) -> (r: Vec<u8>)
        ensures
            r@ == payload_of(self.pass@, self.content@, ping_of(self.ping)),
    {
        proof {
            reveal_strlit("{\"pass\":");
            reveal_strlit(",\"content\":");
            reveal_strlit(",\"ping\":");
            reveal_strlit("true");
            reveal_strlit("false");
            reveal_strlit("}");
        }
        let mut out: Vec<u8> = Vec::new();
        push_ascii(&mut out, "{\"pass\":");
        let mut p = crate::frame::json_string(self.pass.as_str());
        out.append(&mut p);
        push_ascii(&mut out, ",\"content\":");
        let mut c = crate::frame::json_string(self.content.as_str());
        out.append(&mut c);
        push_ascii(&mut out, ",\"ping\":");
        if self.ping.unwrap_or(false) {
            push_ascii(&mut out, "true");
        } else {
            push_ascii(&mut out, "false");
        }
        push_ascii(&mut out, "}");
        out
    }

    /// The message that relays this nudge: type "gamenudge", meta the channel.
    pub fn to_message(&self) -> (r: Message)
        ensures
            r.category@ == "gamenudge"@,
            r.subtopic@ == self.meta@,
            r.payload@ == payload_of(self.pass@, self.content@, ping_of(self.ping)),
    {
        Message {
            category: String::from_str("gamenudge"),
            subtopic: self.meta.clone(),
            payload: self.payload(),
        }
    }
}

/// Brings a nudge in any of its shapes to the one named shape.
pub fn normalize(request: NudgeRequest) -> (r: Nudge)
    ensures
        match request {
            NudgeRequest::Old(legacy) => {
                &&& r.meta@ == old_meta(legacy.admin)
                &&& r.pass == legacy.pass
                &&& r.content == legacy.content
                &&& r.ping == legacy.ping
            },
            NudgeRequest::Named(n) => r == n,
            NudgeRequest::Posted(meta, data) => {
                &&& r.meta == meta
                &&& r.pass == data.pass
                &&& r.content == data.content
                &&& r.ping == data.ping
            },
        },
{
    match request {
        NudgeRequest::Old(legacy) => Nudge::from(legacy),
        NudgeRequest::Named(n) => n,
        NudgeRequest::Posted(meta, data) => Nudge::from_post(meta, &data),
    }
}

/// The message that forwards a JSON document for an SS14 server: type
/// "ss14", meta the server's id.
pub fn ss14_message(id: String, payload: Vec<u8>) -> (r: Message)
    ensures
        r.category@ == "ss14"@,
        r.subtopic == id,
        r.payload == payload,
{
    Message { category: String::from_str("ss14"), subtopic: id, payload }
}

impl Message {
    /// The frame that carries this message under `secret`. A body too long
    /// for the length field cannot be sent: it is refused as a malformed
    /// payload before any connection is made.
    pub fn frame(&self, secret: &[u8]) -> (r: Result<Vec<u8>, MoMMIError>)
        ensures
            ({
                let body = body_of(self.category@, self.subtopic@, self.payload@);
                &&& r is Ok <==> body.len() <= u32::MAX
                &&& r is Ok ==> r->Ok_0@ == frame_of(secret@, body)
                &&& r is Err ==> r == Err::<Vec<u8>, MoMMIError>(MoMMIError::Json)
            }),
    {
        match encode(secret, self.category.as_str(), self.subtopic.as_str(), self.payload.as_slice()) {
            Some(frame) => Ok(frame),
            None => Err(MoMMIError::Json),
        }
    }
}

} // verus!
