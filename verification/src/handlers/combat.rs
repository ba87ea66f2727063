//! Combat requests.
use vstd::prelude::*;
use crate::fields::{self, spec_field};
use crate::msg::{Message, MessageHeader};
use crate::msg::combat::available::{Available, AvailableView, Origin, OriginView};
use crate::msg::combat::data::user::{User, UserView};
use crate::msg::result::{ResultData, ResultDataView, error_view};
use crate::value::{SpecValue, empty_map};

verus! {

/// The model of "You are not authenticated on the server".
pub open spec fn not_authenticated() -> ResultDataView {
    error_view("NotAuthenticated"@, "You are not authenticated on the server"@)
}

/// The answer to an attack: `None` when it goes on to its combat, else an
/// error for a client that is not authenticated, or that names no combat.
pub fn send_attack_reply(authenticated: bool, combat_found: bool) -> (r: Option<ResultData>)
    ensures
        !authenticated ==> (r matches Some(d) && d.deep_view() == not_authenticated()),
        authenticated && !combat_found ==> (r matches Some(d) && d.deep_view() == error_view(
            "InvalidCombat"@,
            "Invalid combat ID"@,
        )),
        authenticated && combat_found ==> r is None,
{
    if !authenticated {
        Some(ResultData::err("NotAuthenticated", "You are not authenticated on the server", None))
    } else if !combat_found {
        Some(ResultData::err("InvalidCombat", "Invalid combat ID", None))
    } else {
        None
    }
}

/// What the search for the opponent of a duel found.
#[derive(Debug, Clone, Copy, PartialEq, Eq, Structural)]
pub enum OpponentSearch {
    /// No user has that pseudo.
    NoSuchUser,
    /// The user exists but is not connected.
    NotConnected,
    /// The user is connected.
    Connected,
}

/// The answer to a duel request: a success when the asking client is
/// authenticated and the opponent connected, else the error that says why not.
pub fn ask_reply(authenticated: bool, search: OpponentSearch) -> (r: ResultData)
    ensures
        r.deep_view() == if !authenticated {
            not_authenticated()
        } else {
            match search {
                OpponentSearch::NoSuchUser => error_view("InvalidUser"@, "No opponent named like that."@),
                OpponentSearch::NotConnected => error_view("InvalidUser"@, "User not connected"@),
                OpponentSearch::Connected => ResultDataView::Success(empty_map()),
            }
        },
{
    if !authenticated {
        return ResultData::err("NotAuthenticated", "You are not authenticated on the server", None);
    }
    match search {
        OpponentSearch::NoSuchUser => ResultData::err("InvalidUser", "No opponent named like that.", None),
        OpponentSearch::NotConnected => ResultData::err("InvalidUser", "User not connected", None),
        OpponentSearch::Connected => ResultData::ok(None),
    }
}

/// The two offers of a duel, both under the request's header and allowing
/// four monsters: the first, for the opponent, names the asking `user`; the
/// second, for the asking user, names the opponent by `opponent_id` and by the
/// pseudo `opponent_pseudo` that the request gave.
pub fn duel_offers(header: &MessageHeader, user: User, opponent_id: u32, opponent_pseudo: String) -> (r: (
    Available,
    Available,
))
    ensures
        r.0.deep_view() == (AvailableView {
            header: header.deep_view(),
            origin: OriginView::Duel { user: user.deep_view() },
            monsters_max_count: 4,
        }),
        r.1.deep_view() == (AvailableView {
            header: header.deep_view(),
            origin: OriginView::Duel { user: UserView { id: opponent_id, pseudo: opponent_pseudo@ } },
            monsters_max_count: 4,
        }),
{
    let for_opponent = Available {
        header: header.clone_header(),
        origin: Origin::Duel { user },
        monsters_max_count: 4,
    };
    let for_user = Available {
        header: header.clone_header(),
        origin: Origin::Duel { user: User { id: opponent_id, pseudo: opponent_pseudo } },
        monsters_max_count: 4,
    };
    (for_opponent, for_user)
}

/// The `monsters` field of `data` read as integers, or none when it is
/// missing or holds something else.
pub open spec fn chosen_monsters(data: SpecValue) -> Seq<i32> {
    match spec_field::<Vec<i32>>(data, "monsters"@) {
        Ok(v) => v,
        Err(_) => Seq::empty(),
    }
}

/// The monsters that a player chose for a combat, from the answer to an
/// offer: those of a success (see [`chosen_monsters`]); any other answer is
/// `Err(true)`.
pub fn get_combat_monsters(reply: &Message) -> (r: Result<Vec<i32>, bool>)
    ensures
        match reply {
            Message::Result(m) => match m.data {
                ResultData::Success(d) => r matches Ok(v) && v@ == chosen_monsters(d@),
                _ => r == Err::<Vec<i32>, bool>(true),
            },
            _ => r == Err::<Vec<i32>, bool>(true),
        },
{
    match reply {
        Message::Result(m) => match &m.data {
            ResultData::Success(d) => match fields::get::<Vec<i32>>(d, "monsters") {
                Ok(v) => Ok(v),
                Err(_) => Ok(Vec::new()),
            },
            _ => Err(true),
        },
        _ => Err(true),
    }
}

} // verus!
