//! Chat messages.
use vstd::prelude::*;
use vstd::string::StringExecFns;
use crate::error::{Error, ErrorView};
use crate::fields::{self, spec_field};
use crate::msg::{MessageFull, MessageHeader, MessagePart, unknown_type, unknown_type_text};
use crate::value::{SpecValue, Value, empty_map, spec_get};

pub mod join;

pub use self::join::{JoinChannel, JoinChannelView};

verus! {

/// A chat message.
#[derive(Debug, Clone)]
pub enum Message {
    JoinChannel(JoinChannel),
}

/// The model of a [`Message`].
pub enum MessageView {
    JoinChannel(JoinChannelView),
}

impl DeepView for Message {
    type V = MessageView;

    open spec fn deep_view(&self) -> MessageView {
        match self {
            Message::JoinChannel(m) => MessageView::JoinChannel(m.deep_view()),
        }
    }
}

impl MessagePart for Message {
    /// The `type` field picks the message.
    open spec fn spec_decode(data: SpecValue) -> Result<MessageView, ErrorView> {
        match spec_field::<String>(data, "type"@) {
            Err(e) => Err(e),
            Ok(t) => if t == "chat:join-channel"@ {
                match JoinChannel::spec_decode(data) {
                    Ok(m) => Ok(MessageView::JoinChannel(m)),
                    Err(e) => Err(e),
                }
            } else {
                Err(ErrorView::InvalidField("type"@, unknown_type_text(t)))
            },
        }
    }

    open spec fn spec_encode(m: MessageView, data: SpecValue) -> SpecValue {
        match m {
            MessageView::JoinChannel(msg) => JoinChannel::spec_encode(msg, data),
        }
    }

    fn decode(data: &Value) -> (r: Result<Message, Error>) {
        let t = fields::get::<String>(data, "type")?;
        if t == String::from_str("chat:join-channel") {
            match JoinChannel::decode(data) {
                Ok(msg) => Ok(Message::JoinChannel(msg)),
                Err(e) => Err(e),
            }
        } else {
            Err(unknown_type(t))
        }
    }

    fn encode(&self, data: &mut Value) {
        match self {
            Message::JoinChannel(msg) => msg.encode(data),
        }
    }
}

impl MessageFull for Message {
    open spec fn spec_header(&self) -> MessageHeader {
        match self {
            Message::JoinChannel(msg) => msg.spec_header(),
        }
    }

    open spec fn spec_with_header(&self, h: MessageHeader) -> Message {
        match self {
            Message::JoinChannel(msg) => Message::JoinChannel(msg.spec_with_header(h)),
        }
    }

    fn header(&self) -> (r: &MessageHeader) {
        match self {
            Message::JoinChannel(msg) => msg.header(),
        }
    }

    fn header_mut(&mut self) -> (r: &mut MessageHeader) {
        match self {
            Message::JoinChannel(msg) => msg.header_mut(),
        }
    }
}

/// Decoding what a chat message encodes into an empty map gives it back; the
/// map is tagged `chat:join-channel`.
pub proof fn law_chat_message_roundtrip(m: MessageView)
    ensures
        Message::spec_decode(Message::spec_encode(m, empty_map())) == Ok::<MessageView, ErrorView>(m),
        spec_get(Message::spec_encode(m, empty_map()), "type"@) == Some(SpecValue::String("chat:join-channel"@)),
{
    match m {
        MessageView::JoinChannel(j) => join::law_join_channel_roundtrip(j),
    }
}

} // verus!
