//! What the server does with each message it receives.
use vstd::prelude::*;
use crate::msg::{self, Authenticate, Message, ResultDataView};
use crate::msg::combat::{Ask, SendAttack, monster_ko};

use crate::msg::result::{ResultData, ResultMessage};
use crate::value::empty_map;

pub mod auth;
pub mod combat;
pub mod portal;
pub mod result;

use self::result::result_message;

verus! {

/// Where a received message goes.
#[derive(Debug)]
pub enum Route {
    /// To the conversation that waits for an answer under the message's ID.
    Conversation(Message),
    /// Nowhere: it is answered at once with this result.
    Reply(ResultMessage),
    /// To the authentication handler.
    Authenticate(Authenticate),
    /// To the combat the attack belongs to.
    SendAttack(SendAttack),
    /// To the knock-out handler.
    MonsterKo(monster_ko::Message),
    /// To the duel handler.
    Ask(Ask),
    /// To the portal-capture handler.
    PortalCapture(msg::portal::Capture),
    /// Nowhere.
    Ignore,
}

/// Where `msg` goes, when `waiting` says whether a conversation waits for an
/// answer under its message ID. A result that no conversation waits for is
/// answered with an `invalid-msg` error; fleeing a combat is answered with a
/// success.
pub fn route(msg: Message, waiting: bool) -> (r: Route)
    ensures
        waiting ==> r == Route::Conversation(msg),
        !waiting ==> match msg {
            Message::Result(m) => r matches Route::Reply(reply) && reply.header.deep_view()
                == m.header.deep_view() && reply.data.deep_view() == (ResultDataView::Error {
                kind: "invalid-msg"@,
                message: "Unknown result ID"@,
                data: empty_map(),
            }),
            Message::Authenticate(a) => r == Route::Authenticate(a),
            Message::Combat(msg::combat::Message::SendAttack(s)) => r == Route::SendAttack(s),
            Message::Combat(msg::combat::Message::Flee(f)) => r matches Route::Reply(reply)
                && reply.header.deep_view() == f.header.deep_view() && reply.data.deep_view()
                == ResultDataView::Success(empty_map()),
            Message::Combat(msg::combat::Message::MonsterKo(k)) => r == Route::MonsterKo(k),
            Message::Combat(msg::combat::Message::Ask(a)) => r == Route::Ask(a),
            Message::Portal(msg::portal::Message::Capture(c)) => r == Route::PortalCapture(c),
            _ => r is Ignore,
        },
{
    if waiting {
        return Route::Conversation(msg);
    }
    match msg {
        Message::Result(m) => Route::Reply(
            result_message(&m.header, ResultData::err("invalid-msg", "Unknown result ID", None)),
        ),
        Message::Authenticate(a) => Route::Authenticate(a),
        Message::Combat(c) => match c {
            msg::combat::Message::SendAttack(s) => Route::SendAttack(s),
            msg::combat::Message::Flee(f) => Route::Reply(result_message(&f.header, ResultData::ok(None))),
            msg::combat::Message::MonsterKo(k) => Route::MonsterKo(k),
            msg::combat::Message::Ask(a) => Route::Ask(a),
            _ => Route::Ignore,
        },
        Message::Portal(p) => match p {
            msg::portal::Message::Capture(c) => Route::PortalCapture(c),
        },
        _ => Route::Ignore,
    }
}

} // verus!
