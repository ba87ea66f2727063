//! Portal captures.
use vstd::prelude::*;
use crate::convert::{IntoValue, str_value};
use crate::msg::result::{ResultData, error_view};
use crate::value::{SpecValue, Value, find_key, lemma_mapping_view, pairs_view, spec_get};

verus! {

/// Why a portal capture failed.
#[derive(Debug, Clone, Copy, PartialEq, Eq, Structural)]
pub enum CaptureFailure {
    /// The portal does not exist.
    UnknownPortal,
    /// The monster sent to capture it does not exist.
    UnknownMonster,
    /// The capturing user could not be read.
    UserLookup,
    /// Anything else went wrong on the server's side.
    Internal,
}

/// The answer to a failed capture.
pub fn capture_failure_reply(failure: CaptureFailure) -> (r: ResultData)
    ensures
        r.deep_view() == match failure {
            CaptureFailure::UnknownPortal => error_view("InvalidPortal"@, "This portal does not exist."@),
            CaptureFailure::UnknownMonster => error_view("InvalidMonster"@, "This monster does not exist"@),
            CaptureFailure::UserLookup => error_view("internal"@, "internal server error"@),
            CaptureFailure::Internal => error_view("internal"@, "Internal server error"@),
        },
{
    match failure {
        CaptureFailure::UnknownPortal => ResultData::err("InvalidPortal", "This portal does not exist.", None),
        CaptureFailure::UnknownMonster => ResultData::err("InvalidMonster", "This monster does not exist", None),
        CaptureFailure::UserLookup => ResultData::err("internal", "internal server error", None),
        CaptureFailure::Internal => ResultData::err("internal", "Internal server error", None),
    }
}

/// The model of a string value.
pub open spec fn text(s: Seq<char>) -> SpecValue {
    SpecValue::String(s)
}

/// The data that answers the capture of a free portal.
pub open spec fn vacant_view() -> SpecValue {
    SpecValue::Mapping(seq![(text("state"@), text("vacant"@))])
}

/// The data that answers the capture of a portal that `owner_id`, called
/// `owner_pseudo`, holds with its monster `user_monster_id` (of kind
/// `monster_id`, named `name`, with `hp` and at `level`).
pub open spec fn occupied_view(
    owner_id: i32,
    owner_pseudo: Seq<char>,
    name: Seq<char>,
    monster_id: i32,
    user_monster_id: i32,
    hp: SpecValue,
    level: i32,
) -> SpecValue {
    SpecValue::Mapping(
        seq![
            (text("state"@), text("occupied"@)),
            (text("owner"@), SpecValue::Mapping(seq![
                (text("id"@), i32::spec_into_value(owner_id)),
                (text("pseudo"@), text(owner_pseudo)),
            ])),
            (text("monster"@), SpecValue::Mapping(seq![
                (text("id"@), i32::spec_into_value(1)),
                (text("name"@), text(name)),
                (text("monster_id"@), i32::spec_into_value(monster_id)),
                (text("user_monster_id"@), i32::spec_into_value(user_monster_id)),
                (text("hp"@), hp),
                (text("level"@), i32::spec_into_value(level)),
            ])),
        ],
    )
}

/// A pair of a string key and a value.
fn entry(key: &str, value: Value) -> (r: (Value, Value))
    ensures
        r.0@ == text(key@),
        r.1@ == value@,
{
    (str_value(key), value)
}

/// The data that answers the capture of a free portal.
pub fn vacant_portal_data() -> (r: Value)
    ensures
        r@ == vacant_view(),
{
    let e = vec![entry("state", str_value("vacant"))];
    proof {
        lemma_mapping_view(e);
        assert(pairs_view(e@) =~= vacant_view()->Mapping_0);
    }
    Value::Mapping(e)
}

/// The data that answers the capture of an occupied portal (see
/// [`occupied_view`]).
pub fn occupied_portal_data(
    owner_id: i32,
    owner_pseudo: String,
    name: String,
    monster_id: i32,
    user_monster_id: i32,
    hp: Value,
    level: i32,
) -> (r: Value)
    ensures
        r@ == occupied_view(owner_id, owner_pseudo@, name@, monster_id, user_monster_id, hp@, level),
{
    let owner = vec![entry("id", owner_id.into_value()), entry("pseudo", owner_pseudo.into_value())];
    let monster = vec![
        entry("id", 1i32.into_value()),
        entry("name", name.into_value()),
        entry("monster_id", monster_id.into_value()),
        entry("user_monster_id", user_monster_id.into_value()),
        entry("hp", hp),
        entry("level", level.into_value()),
    ];
    proof {
        lemma_mapping_view(owner);
        lemma_mapping_view(monster);
    }
    let ghost owner_v = pairs_view(owner@);
    let ghost monster_v = pairs_view(monster@);
    let data = vec![
        entry("state", str_value("occupied")),
        entry("owner", Value::Mapping(owner)),
        entry("monster", Value::Mapping(monster)),
    ];
    proof {
        lemma_mapping_view(data);
        let full = occupied_view(owner_id, owner_pseudo@, name@, monster_id, user_monster_id, hp@, level);
        assert(owner_v =~= full->Mapping_0[1].1->Mapping_0);
        assert(monster_v =~= full->Mapping_0[2].1->Mapping_0);
        assert(pairs_view(data@) =~= full->Mapping_0);
    }
    Value::Mapping(data)
}


/// A portal as the capture handler reads it.
#[derive(Debug)]
pub struct PortalState {
    pub id: i32,
    /// The user who holds the portal, if anyone does.
    pub captured_by: Option<i32>,
    /// The monster of that user that guards it.
    pub monster_on: Option<i32>,
}

/// The monster that guards an occupied portal.
#[derive(Debug)]
pub struct Guard {
    pub id: i32,
    pub surname: String,
    pub level: i32,
}

/// The kind of the guarding monster.
#[derive(Debug)]
pub struct GuardKind {
    pub id: i32,
    pub hp: Value,
}

/// What the lookups of a capture found, in the order that they are made:
/// `None` for a lookup that found nothing, or that was not made because an
/// earlier one failed.
#[derive(Debug)]
pub struct CaptureLookups {
    /// The portal to capture.
    pub portal: Option<PortalState>,
    /// The monster sent to capture it.
    pub user_monster: Option<i32>,
    /// The kind of that monster.
    pub monster: Option<i32>,
    /// The capturing user.
    pub user: Option<i32>,
    /// The pseudo of the user who holds the portal.
    pub owner_pseudo: Option<String>,
    /// The monster that guards the portal.
    pub guard: Option<Guard>,
    /// The kind of that monster.
    pub guard_kind: Option<GuardKind>,
}

/// How a capture ends.
#[derive(Debug)]
pub enum CaptureOutcome {
    /// It fails: answer with the failure.
    Failed(CaptureFailure),
    /// The portal is held: answer with this data; a combat against the
    /// holder follows.
    Occupied(Value),
    /// The portal is free: record the capture and answer with this data.
    Vacant(Value),
}

/// How a capture ends, given what its lookups found: the first lookup that
/// failed decides the failure; a held portal is described by its holder and
/// its guard; a free one is taken.
pub fn capture_outcome(l: CaptureLookups) -> (r: CaptureOutcome)
    ensures
        l.portal is None ==> r == CaptureOutcome::Failed(CaptureFailure::UnknownPortal),
        l.portal is Some && l.user_monster is None ==> r == CaptureOutcome::Failed(
            CaptureFailure::UnknownMonster,
        ),
        l.portal is Some && l.user_monster is Some && l.monster is None ==> r
            == CaptureOutcome::Failed(CaptureFailure::Internal),
        l.portal is Some && l.user_monster is Some && l.monster is Some && l.user is None ==> r
            == CaptureOutcome::Failed(CaptureFailure::UserLookup),
        l.portal is Some && l.user_monster is Some && l.monster is Some && l.user is Some ==> match l.portal->0.captured_by {
            None => r matches CaptureOutcome::Vacant(d) && d@ == vacant_view(),
            Some(owner) => if l.owner_pseudo is Some && l.portal->0.monster_on is Some && l.guard is Some
                && l.guard_kind is Some {
                r matches CaptureOutcome::Occupied(d) && d@ == occupied_view(
                    owner,
                    l.owner_pseudo->0@,
                    l.guard->0.surname@,
                    l.guard_kind->0.id,
                    l.guard->0.id,
                    l.guard_kind->0.hp@,
                    l.guard->0.level,
                )
            } else {
                r == CaptureOutcome::Failed(CaptureFailure::Internal)
            },
        },
{
    let portal = match l.portal {
        Some(p) => p,
        None => return CaptureOutcome::Failed(CaptureFailure::UnknownPortal),
    };
    if l.user_monster.is_none() {
        return CaptureOutcome::Failed(CaptureFailure::UnknownMonster);
    }
    if l.monster.is_none() {
        return CaptureOutcome::Failed(CaptureFailure::Internal);
    }
    if l.user.is_none() {
        return CaptureOutcome::Failed(CaptureFailure::UserLookup);
    }
    match portal.captured_by {
        None => CaptureOutcome::Vacant(vacant_portal_data()),
        Some(owner) => match (l.owner_pseudo, portal.monster_on, l.guard, l.guard_kind) {
            (Some(pseudo), Some(_), Some(guard), Some(kind)) => CaptureOutcome::Occupied(
                occupied_portal_data(owner, pseudo, guard.surname, kind.id, guard.id, kind.hp, guard.level),
            ),
            _ => CaptureOutcome::Failed(CaptureFailure::Internal),
        },
    }
}


/// What follows the answer to the capture of a held portal: when the holder
/// is connected and both the monster sent and the guard are known, the
/// combat between them (the monster sent first); else an internal error to
/// answer with.
pub fn occupied_follow_up(connected: bool, sent: Option<i32>, guard: Option<i32>) -> (r: Result<
    (i32, i32),
    ResultData,
>)
    ensures
        match (connected, sent, guard) {
            (true, Some(a), Some(b)) => r == Ok::<(i32, i32), ResultData>((a, b)),
            _ => r matches Err(d) && d.deep_view() == error_view("internal"@, "Internal server error"@),
        },
{
    match (connected, sent, guard) {
        (true, Some(a), Some(b)) => Ok((a, b)),
        _ => Err(capture_failure_reply(CaptureFailure::Internal)),
    }
}

/// The answer data of a held portal puts each given value under the key of
/// its name: the holder's id and pseudo under `owner`, and the guard's name,
/// kind, id, hit points and level under `monster` (whose own `id` is 1).
pub proof fn law_occupied_view_fields(
    owner_id: i32,
    owner_pseudo: Seq<char>,
    name: Seq<char>,
    monster_id: i32,
    user_monster_id: i32,
    hp: SpecValue,
    level: i32,
)
    ensures
        ({
            let v = occupied_view(owner_id, owner_pseudo, name, monster_id, user_monster_id, hp, level);
            let owner = spec_get(v, "owner"@)->Some_0;
            let monster = spec_get(v, "monster"@)->Some_0;
            &&& spec_get(v, "state"@) == Some(text("occupied"@))
            &&& spec_get(v, "owner"@) is Some
            &&& spec_get(owner, "id"@) == Some(i32::spec_into_value(owner_id))
            &&& spec_get(owner, "pseudo"@) == Some(text(owner_pseudo))
            &&& spec_get(v, "monster"@) is Some
            &&& spec_get(monster, "id"@) == Some(i32::spec_into_value(1))
            &&& spec_get(monster, "name"@) == Some(text(name))
            &&& spec_get(monster, "monster_id"@) == Some(i32::spec_into_value(monster_id))
            &&& spec_get(monster, "user_monster_id"@) == Some(i32::spec_into_value(user_monster_id))
            &&& spec_get(monster, "hp"@) == Some(hp)
            &&& spec_get(monster, "level"@) == Some(i32::spec_into_value(level))
        }),
{
    reveal_with_fuel(find_key, 7);
    reveal_strlit("state");
    reveal_strlit("owner");
    reveal_strlit("monster");
    reveal_strlit("id");
    reveal_strlit("pseudo");
    reveal_strlit("name");
    reveal_strlit("monster_id");
    reveal_strlit("user_monster_id");
    reveal_strlit("hp");
    reveal_strlit("level");
    assert("state"@[0] == 's' && "owner"@[0] == 'o' && "monster"@[0] == 'm');
    assert("id"@.len() != "pseudo"@.len());
    assert("id"@[0] == 'i' && "name"@[0] == 'n' && "monster_id"@[0] == 'm' && "user_monster_id"@[0] == 'u');
    assert("hp"@[0] == 'h' && "level"@[0] == 'l');
    assert("id"@.len() != "hp"@.len() || "id"@[0] != "hp"@[0]);
}

/// The answer data of a free portal says so under `state`.
pub proof fn law_vacant_view_fields()
    ensures
        spec_get(vacant_view(), "state"@) == Some(text("vacant"@)),
{
    reveal_with_fuel(find_key, 2);
}

} // verus!
