use vstd::prelude::*;
use crate::error::TransportError;
use crate::timestamp::Timestamp;
use crate::timestamp::timestamp_of;
use crate::timestamp::parse_timestamp;
use crate::timestamp::wire_format_ok;

verus! {

/// An attachment entry of a message: metadata only, the bytes come from a
/// separate download call.
#[derive(Debug, Clone, PartialEq, Eq, PartialOrd, Ord, Hash)]
pub struct Attachment {
    /// The filename of the attachment.
    pub filename: String,
    /// The MIME content type of the attachment.
    pub content_type: String,
    /// The size of the attachment in bytes.
    pub size: usize,
}

/// Minimal per-message metadata from the mailbox listing call: the fields
/// needed to enumerate a mailbox and expand each entry afterwards.
#[derive(Debug, Clone, PartialEq, Eq, PartialOrd, Ord, Hash)]
pub struct RawMessage {
    /// The unique identifier of the message.
    pub id: usize,
    /// The sender's address.
    pub from: String,
    /// The subject line.
    pub subject: String,
    /// When the message was received, in UTC.
    pub timestamp: Timestamp,
}

/// A full message after normalization: the timestamp is parsed, and an
/// empty HTML part has been collapsed into absence.
#[derive(Debug, Clone, PartialEq, Eq, PartialOrd, Ord)]
pub struct Message {
    /// The unique identifier of the message.
    pub id: usize,
    /// The sender's address.
    pub from: String,
    /// The subject line.
    pub subject: String,
    /// When the message was received, in UTC.
    pub timestamp: Timestamp,
    /// The attachments, in the order the provider listed them.
    pub attachments: Vec<Attachment>,
    /// The full body, text and HTML content included.
    pub body: String,
    /// The text-only body.
    pub text_body: String,
    /// The HTML body; never present as an empty string.
    pub html_body: Option<String>,
}

/// The fields of a listing entry as they stand on the wire, before the
/// timestamp text is parsed.
#[derive(Debug, Clone, PartialEq, Eq)]
pub struct RawMessageWire {
    /// The unique identifier of the message.
    pub id: usize,
    /// The sender's address.
    pub from: String,
    /// The subject line.
    pub subject: String,
    /// The timestamp text, expected as `YYYY-MM-DD HH:MM:SS`.
    pub date: String,
}

/// The fields of a full message as they stand on the wire, before
/// normalization.
#[derive(Debug, Clone, PartialEq, Eq)]
pub struct MessageWire {
    /// The unique identifier of the message.
    pub id: usize,
    /// The sender's address.
    pub from: String,
    /// The subject line.
    pub subject: String,
    /// The timestamp text, expected as `YYYY-MM-DD HH:MM:SS`.
    pub date: String,
    /// The attachments, in provider order.
    pub attachments: Vec<Attachment>,
    /// The full body.
    pub body: String,
    /// The text-only body.
    pub text_body: String,
    /// The HTML body as received: possibly absent, possibly empty.
    pub html_body: Option<String>,
}

impl Message {
    /// A normalized message never carries an empty HTML part: the provider's
    /// empty string and an absent field collapse into one "no HTML" state.
    /// No other field is normalized this way.
    pub open spec fn normalized(self) -> bool {
        match self.html_body {
            Some(h) => h@.len() > 0,
            None => true,
        }
    }
}

/// How a normalized message relates to its wire form: every field is
/// carried over unchanged, except that the timestamp text is parsed and an
/// empty HTML part becomes absent.
pub open spec fn message_matches_wire(w: MessageWire, m: Message) -> bool {
    &&& wire_format_ok(w.date@)
    &&& m.id == w.id
    &&& m.from@ == w.from@
    &&& m.subject@ == w.subject@
    &&& m.timestamp == timestamp_of(w.date@)
    &&& m.attachments@ == w.attachments@
    &&& m.body@ == w.body@
    &&& m.text_body@ == w.text_body@
    &&& (match (w.html_body, m.html_body) {
        (None, None) => true,
        (Some(h), None) => h@.len() == 0,
        (Some(h), Some(k)) => h@.len() > 0 && k@ == h@,
        (None, Some(_)) => false,
    })
}

/// How a listing entry relates to its wire form: the fields are carried
/// over and the timestamp text is parsed.
pub open spec fn raw_matches_wire(w: RawMessageWire, r: RawMessage) -> bool {
    &&& wire_format_ok(w.date@)
    &&& r.id == w.id
    &&& r.from@ == w.from@
    &&& r.subject@ == w.subject@
    &&& r.timestamp == timestamp_of(w.date@)
}

/// Normalizes one full message from its wire form: parses the timestamp as
/// UTC and collapses an empty HTML part into absence. An unparsable
/// timestamp is a decode failure.
pub fn normalize_message(w: MessageWire) -> (r: Result<Message, TransportError>)
    ensures
        match r {
            Ok(m) => message_matches_wire(w, m) && m.normalized(),
            Err(e) => !wire_format_ok(w.date@) && e == TransportError::Decode,
        },
{
    let timestamp = match parse_timestamp(w.date.as_str()) {
        Ok(t) => t,
        Err(e) => return Err(e),
    };
    let html_body = match w.html_body {
        Some(h) => if h.as_str().is_empty() {
            None
        } else {
            Some(h)
        },
        None => None,
    };
    Ok(
        Message {
            id: w.id,
            from: w.from,
            subject: w.subject,
            timestamp,
            attachments: w.attachments,
            body: w.body,
            text_body: w.text_body,
            html_body,
        },
    )
}

/// Normalizes one listing entry from its wire form: parses the timestamp
/// as UTC. An unparsable timestamp is a decode failure.
pub fn normalize_raw_message(w: &RawMessageWire) -> (r: Result<RawMessage, TransportError>)
    ensures
        match r {
            Ok(m) => raw_matches_wire(*w, m),
            Err(e) => !wire_format_ok(w.date@) && e == TransportError::Decode,
        },
{
    let timestamp = match parse_timestamp(w.date.as_str()) {
        Ok(t) => t,
        Err(e) => return Err(e),
    };
    Ok(RawMessage { id: w.id, from: w.from.clone(), subject: w.subject.clone(), timestamp })
}

/// Normalizes a whole listing, keeping the provider's order; the first
/// entry with an unparsable timestamp fails the batch with a decode
/// failure, and nothing is returned partially.
pub fn normalize_raw_messages(ws: &Vec<RawMessageWire>) -> (r: Result<
    Vec<RawMessage>,
    TransportError,
>)
    ensures
        match r {
            Ok(rs) => {
                &&& rs@.len() == ws@.len()
                &&& forall|i: int|
                    0 <= i < ws@.len() ==> raw_matches_wire(#[trigger] ws@[i], #[trigger] rs@[i])
            },
            Err(e) => {
                &&& e == TransportError::Decode
                &&& exists|i: int| 0 <= i < ws@.len() && !wire_format_ok(#[trigger] ws@[i].date@)
            },
        },
{
    let mut out: Vec<RawMessage> = Vec::new();
    let mut i: usize = 0;
    while i < ws.len()
        invariant
            i <= ws@.len(),
            out@.len() == i,
            forall|j: int| 0 <= j < i ==> raw_matches_wire(#[trigger] ws@[j], #[trigger] out@[j]),
        decreases ws@.len() - i,
    {
        match normalize_raw_message(&ws[i]) {
            Ok(m) => out.push(m),
            Err(e) => {
                return Err(e);
            },
        }
        i = i + 1;
    }
    Ok(out)
}

/// How a wire form encodes a message: the timestamp rendered to its wire
/// text, every other field carried over unchanged.
pub open spec fn wire_encodes(w: MessageWire, m: Message) -> bool {
    &&& w.id == m.id
    &&& w.from@ == m.from@
    &&& w.subject@ == m.subject@
    &&& w.date@ == m.timestamp.render_spec()
    &&& w.attachments@ == m.attachments@
    &&& w.body@ == m.body@
    &&& w.text_body@ == m.text_body@
    &&& (match (m.html_body, w.html_body) {
        (None, None) => true,
        (Some(h), Some(k)) => k@ == h@,
        _ => false,
    })
}

/// Writes a message back into its wire form, rendering the timestamp to
/// its wire text.
pub fn message_to_wire(m: Message) -> (w: MessageWire)
    requires
        m.timestamp.valid(),
    ensures
        wire_encodes(w, m),
{
    let date = m.timestamp.render();
    MessageWire {
        id: m.id,
        from: m.from,
        subject: m.subject,
        date,
        attachments: m.attachments,
        body: m.body,
        text_body: m.text_body,
        html_body: m.html_body,
    }
}

/// Round trip: encoding a normalized message to its wire form and
/// normalizing that wire form back reproduces the sender, subject,
/// attachments, bodies and HTML part, and a timestamp equal to the UTC
/// reading of the rendered text — that is, the very timestamp it started
/// from.
pub proof fn lemma_message_round_trip(w: MessageWire, m: Message, back: Message)
    requires
        m.normalized(),
        m.timestamp.valid(),
        wire_encodes(w, m),
        message_matches_wire(w, back),
    ensures
        back.id == m.id,
        back.from@ == m.from@,
        back.subject@ == m.subject@,
        back.timestamp == m.timestamp,
        back.attachments@ == m.attachments@,
        back.body@ == m.body@,
        back.text_body@ == m.text_body@,
        (match (m.html_body, back.html_body) {
            (None, None) => true,
            (Some(h), Some(k)) => k@ == h@,
            _ => false,
        }),
{
    crate::timestamp::lemma_timestamp_round_trip(m.timestamp);
}

} // verus!
