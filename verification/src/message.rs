//! What a received message becomes for a C caller.
use vstd::prelude::*;
use vstd::utf8::{decode_utf8, valid_utf8};

use crate::string_h::{all_ascii, ascii_chars, c_string_content, c_string_text, utf8_lossy, utf8_lossy_text};

verus! {

/// A message as the SDK delivers it.
pub struct Message {
    pub topic: Vec<u8>,
    pub payload: Vec<u8>,
    /// Per-stream sequence number.
    pub seq: u64,
    /// Logical stream id.
    pub stream_id: u64,
}

/// The contents of a C message before its buffers are handed out.
pub struct CMessageParts {
    /// The topic text of the C string (NUL-free).
    pub topic: String,
    /// The payload buffer; `None` stands for a null pointer, given for an
    /// empty payload.
    pub payload: Option<Vec<u8>>,
    pub payload_len: usize,
    pub seq: u64,
    pub stream_id: u64,
}

/// The C topic text for the topic bytes `topic`: decoded lossily, and
/// emptied where the text holds a NUL.
pub open spec fn c_topic(topic: Seq<u8>) -> Seq<char> {
    c_string_content(utf8_lossy_text(topic))
}

/// Law: the C topic is the lossy decoding of the topic bytes themselves
/// when that holds no NUL (so valid UTF-8 topics come through as the text
/// they encode), and empty otherwise.
pub proof fn law_c_topic_is_decoded_topic(topic: Seq<u8>)
    ensures
        !utf8_lossy_text(topic).contains('\0') ==> c_topic(topic) == utf8_lossy_text(topic),
        utf8_lossy_text(topic).contains('\0') ==> c_topic(topic).len() == 0,
{
}

/// Converts an SDK message into the contents of a C message.
pub fn sdk_msg_to_c(msg: Message) -> (parts: CMessageParts)
    ensures
        parts.topic@ == c_topic(msg.topic@),
        !utf8_lossy_text(msg.topic@).contains('\0') ==> parts.topic@ == utf8_lossy_text(msg.topic@),
        utf8_lossy_text(msg.topic@).contains('\0') ==> parts.topic@.len() == 0,
        valid_utf8(msg.topic@) && !decode_utf8(msg.topic@).contains('\0') ==> parts.topic@ == decode_utf8(msg.topic@),
        all_ascii(msg.topic@) ==> parts.topic@ == c_string_content(ascii_chars(msg.topic@)),
        parts.payload_len == msg.payload.len(),
        parts.payload == (if msg.payload.len() > 0 { Some(msg.payload) } else { None }),
        parts.seq == msg.seq,
        parts.stream_id == msg.stream_id,
{
    let text = utf8_lossy(msg.topic.as_slice());
    let topic = c_string_text(text);
    let payload_len = msg.payload.len();
    let payload = if payload_len > 0 {
        Some(msg.payload)
    } else {
        None
    };
    CMessageParts { topic, payload, payload_len, seq: msg.seq, stream_id: msg.stream_id }
}

} // verus!
