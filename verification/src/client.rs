//! What `vireon_client_open_stream` asks the SDK for.
use vstd::prelude::*;

use crate::config::{ordinal_to_policy, policy_of, DeliveryPolicy};
use crate::string_h::{c_arg_bytes, c_arg_text, cstr_to_string, utf8_lossy_text};

verus! {

/// A dedicated stream: its delivery policy and, when one was given, its
/// topic.
pub struct StreamRequest {
    pub policy: DeliveryPolicy,
    pub topic: Option<String>,
}

/// The topic of a stream for the topic text `text`: none when it is empty.
pub fn stream_topic(text: String) -> (topic: Option<String>)
    ensures
        text@.len() == 0 ==> topic is None,
        text@.len() > 0 ==> topic == Some(text),
{
    if text.as_str().is_empty() {
        None
    } else {
        Some(text)
    }
}

/// Builds the stream request from the policy ordinal and the topic
/// argument; an empty or null topic opens a stream without a topic.
pub fn stream_request(policy_ordinal: i32, topic: Option<&[u8]>) -> (request: StreamRequest)
    ensures
        request.policy == policy_of(policy_ordinal),
        topic is None ==> request.topic is None,
        topic is Some && utf8_lossy_text((topic->0)@).len() == 0 ==> request.topic is None,
        topic is Some && utf8_lossy_text((topic->0)@).len() > 0 ==> (request.topic is Some && (
        request.topic->0)@ == utf8_lossy_text((topic->0)@)),
        c_arg_text(c_arg_bytes(topic)).len() == 0 ==> request.topic is None,
        c_arg_text(c_arg_bytes(topic)).len() > 0 ==> (request.topic matches Some(t) && t@ == c_arg_text(
            c_arg_bytes(topic),
        )),
{
    let policy = ordinal_to_policy(policy_ordinal);
    let text = cstr_to_string(topic);
    let topic = stream_topic(text);
    StreamRequest { policy, topic }
}

} // verus!
