//! Answering a message with a result.
use vstd::prelude::*;
use crate::error::{Error, spec_description};
use crate::msg::{MessageHeader, is_v4_uuid_text};
use crate::msg::result::{ResultData, ResultDataView, ResultMessage};
use crate::value::empty_map;

verus! {

/// The result that answers the message with header `header`: it carries the
/// same message ID, and `data`.
pub fn result_message(header: &MessageHeader, data: ResultData) -> (r: ResultMessage)
    ensures
        r.header.deep_view() == header.deep_view(),
        r.data == data,
{
    ResultMessage { header: header.clone_header(), data }
}

/// The answer to a message that could not be decoded: an `InvalidMsg` error
/// that describes `e`, under a fresh message ID.
pub fn invalid_message_reply(e: &Error) -> (r: ResultMessage)
    ensures
        r.header.id matches Some(id) && is_v4_uuid_text(id@),
        r.data.deep_view() == (ResultDataView::Error {
            kind: "InvalidMsg"@,
            message: spec_description(e.deep_view()),
            data: empty_map(),
        }),
{
    let header = MessageHeader::new();
    ResultMessage { header, data: ResultData::err("InvalidMsg", e.description(), None) }
}

} // verus!
