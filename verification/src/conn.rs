//! What a connection says about itself and answers when reading fails.
use vstd::prelude::*;
use vstd::string::StringExecFns;
use crate::msg::{MessageHeader, is_v4_uuid_text};
use crate::msg::result::{ResultData, ResultDataView, ResultMessage};
use crate::value::empty_map;

verus! {

/// How a connection is named in the logs: the pseudo of its user and, in
/// brackets, the peer address; the address alone before authentication.
pub fn display_name(pseudo: Option<&str>, peer: &str) -> (r: String)
    ensures
        r@ == match pseudo {
            Some(p) => p@ + " ("@ + peer@ + ")"@,
            None => peer@,
        },
{
    match pseudo {
        Some(p) => String::from_str(p).concat(" (").concat(peer).concat(")"),
        None => String::from_str(peer),
    }
}

/// The answer when no MessagePack value could be read from the client: an
/// `internal` error that carries the reader's `description`, under a fresh
/// message ID.
pub fn read_error_reply(description: &str) -> (r: ResultMessage)
    ensures
        r.header.id matches Some(id) && is_v4_uuid_text(id@),
        r.data.deep_view() == (ResultDataView::Error {
            kind: "internal"@,
            message: description@,
            data: empty_map(),
        }),
{
    ResultMessage { header: MessageHeader::new(), data: ResultData::err("internal", description, None) }
}

} // verus!
