//! Offers of combats against wild monsters, sent to each client from time to
//! time.
use vstd::prelude::*;
use crate::fields::{self, spec_field};
use crate::msg::{Message, MessageHeader, is_v4_uuid_text};
use crate::msg::combat::available::{Available, AvailableView, Origin, OriginView};
use crate::msg::result::ResultData;
use crate::handlers::combat::chosen_monsters;

verus! {

/// `rand::random_range` over `0..bound`: a number that the thread-local
/// generator draws, below `bound` (the call panics on an empty range, hence
/// the `requires`). Which number comes out is chance.
#[verifier::external_body]
fn random_below(bound: u64) -> (r: u64)
    requires
        bound > 0,
    ensures
        r < bound,
{
    rand::random_range(0..bound)
}

/// The wait, in milliseconds, before an offer, given the random part `draw`
/// (below 120): 140 more than it.
pub fn delay_after(draw: u64) -> (r: u64)
    requires
        draw < 120,
    ensures
        r == 140 + draw,
{
    140 + draw
}

/// How long to wait, in milliseconds, before the next offer: a draw below 120
/// taken by [`delay_after`]. Whatever is drawn, the wait is at least 140 and
/// below 260.
pub fn combat_delay_ms() -> (r: u64)
    ensures
        140 <= r < 260,
{
    delay_after(random_below(120))
}

/// The ID of the wild monster that the offers bring.
pub open spec fn wild_monster_id() -> u32 {
    1
}

/// An offer to fight the wild monster, with up to three monsters, under a
/// fresh message ID, and that ID.
pub fn wild_offer() -> (r: (Available, String))
    ensures
        is_v4_uuid_text(r.1@),
        r.0.deep_view() == (AvailableView {
            header: Some(r.1@),
            origin: OriginView::WildMonster { monster_id: wild_monster_id() },
            monsters_max_count: 3,
        }),
{
    let mut header = MessageHeader::new();
    let id = header.ensure_id();
    let offer = Available {
        header: header.clone_header(),
        origin: Origin::WildMonster { monster_id: 1 },
        monsters_max_count: 3,
    };
    (offer, id)
}

/// Whether the data of an answer to an offer accepts it: its `accept` field
/// holds `true`.
pub open spec fn accepts(data: crate::value::SpecValue) -> bool {
    spec_field::<bool>(data, "accept"@) == Ok::<bool, crate::error::ErrorView>(true)
}

/// The monsters to fight the wild monster with, from the answer to an offer:
/// the chosen monsters of a success that accepts, when there is at least one;
/// `None` for any other answer.
pub fn wild_combat_choice(reply: &Message) -> (r: Option<Vec<i32>>)
    ensures
        match reply {
            Message::Result(m) => match m.data {
                ResultData::Success(d) => if accepts(d@) && chosen_monsters(d@).len() > 0 {
                    r matches Some(v) && v@ == chosen_monsters(d@)
                } else {
                    r is None
                },
                _ => r is None,
            },
            _ => r is None,
        },
{
    match reply {
        Message::Result(m) => match &m.data {
            ResultData::Success(d) => {
                let accept = match fields::get::<bool>(d, "accept") {
                    Ok(b) => b,
                    Err(_) => false,
                };
                if !accept {
                    return None;
                }
                let monsters = match fields::get::<Vec<i32>>(d, "monsters") {
                    Ok(v) => v,
                    Err(_) => Vec::new(),
                };
                if monsters.len() > 0 {
                    Some(monsters)
                } else {
                    None
                }
            },
            _ => None,
        },
        _ => None,
    }
}

} // verus!
