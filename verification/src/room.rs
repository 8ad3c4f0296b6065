//! What a room is called and who is in it, read from its state events.

use vstd::prelude::*;
use crate::error::Error;
use crate::json::{entry_views, json_views, Json, JsonV};
use crate::text::{join2, join3, str_eq};
use crate::types::{member_views, Member, MemberV};

verus! {

/// Whether the event `ev` is of type `kind`.
pub open spec fn has_type(ev: JsonV, kind: Seq<char>) -> bool {
    ev.member("type"@).text() == Some(kind)
}

/// The first event of type `kind` among `events[from..]`.
pub open spec fn first_of_type(events: Seq<JsonV>, kind: Seq<char>, from: int) -> Option<JsonV>
    decreases events.len() - from,
{
    if from < 0 || from >= events.len() {
        None
    } else if has_type(events[from], kind) {
        Some(events[from])
    } else {
        first_of_type(events, kind, from + 1)
    }
}

/// Whether `ev` is a membership event.
pub open spec fn is_membership(ev: JsonV) -> bool {
    has_type(ev, "m.room.member"@)
}

/// The user that a membership event is about; empty where the event
/// names none.
pub open spec fn subject(ev: JsonV) -> Seq<char> {
    ev.member("sender"@).text_or(""@)
}

/// Whether a membership event puts its user into the room.
pub open spec fn joins(ev: JsonV) -> bool {
    ev.member("content"@).member("membership"@).text() == Some("join"@)
}

/// Whether a membership event about `user` stands among `events[from..]`.
pub open spec fn speaks_of(events: Seq<JsonV>, user: Seq<char>, from: int) -> bool
    decreases events.len() - from,
{
    if from < 0 || from >= events.len() {
        false
    } else if is_membership(events[from]) && subject(events[from]) == user {
        true
    } else {
        speaks_of(events, user, from + 1)
    }
}

/// Whether the event at `at` is the last word on its user and says that
/// this user has joined; a user named by `skip` does not count.
pub open spec fn is_member_at(events: Seq<JsonV>, skip: Option<Seq<char>>, at: int) -> bool {
    &&& 0 <= at < events.len()
    &&& is_membership(events[at])
    &&& joins(events[at])
    &&& skip != Some(subject(events[at]))
    &&& !speaks_of(events, subject(events[at]), at + 1)
}

/// The membership events of the joined members among the first `upto`
/// events, each user once, in the order of the events, without the user
/// that `skip` names.
pub open spec fn members_upto(events: Seq<JsonV>, skip: Option<Seq<char>>, upto: int) -> Seq<
    JsonV,
>
    decreases upto,
{
    if upto <= 0 {
        Seq::empty()
    } else if is_member_at(events, skip, upto - 1) {
        members_upto(events, skip, upto - 1).push(events[upto - 1])
    } else {
        members_upto(events, skip, upto - 1)
    }
}

/// The membership events of the joined members other than `me`.
pub open spec fn others(events: Seq<JsonV>, me: Seq<char>) -> Seq<JsonV> {
    members_upto(events, Some(me), events.len() as int)
}

/// The display name that a membership event gives, empty where it gives
/// none.
pub open spec fn display_name(ev: JsonV) -> Seq<char> {
    ev.member("content"@).member("displayname"@).text_or(""@)
}

/// The name made up from the other members of a room.
pub open spec fn name_from_members(members: Seq<JsonV>) -> Seq<char> {
    if members.len() == 0 {
        "EMPTY ROOM"@
    } else if members.len() == 1 {
        display_name(members[0])
    } else if members.len() == 2 {
        display_name(members[0]) + " and "@ + display_name(members[1])
    } else {
        display_name(members[0]) + " and Others"@
    }
}

/// The name of the room whose state events are `events`, for the user
/// `me`: the name that the first name event gives; else the alias that
/// the first canonical-alias event gives; else a name made up from the
/// other members.
pub open spec fn name_of_events(events: Seq<JsonV>, me: Seq<char>) -> Seq<char> {
    match first_of_type(events, "m.room.name"@, 0) {
        Some(ev) => ev.member("content"@).member("name"@).text_or("WRONG NAME"@),
        None => match first_of_type(events, "m.room.canonical_alias"@, 0) {
            Some(ev) => ev.member("content"@).member("alias"@).text_or("WRONG ALIAS"@),
            None => name_from_members(others(events, me)),
        },
    }
}

/// The name of the room with the state `roomst`; a state that is no
/// array of events is malformed.
pub open spec fn room_name(roomst: JsonV, me: Seq<char>) -> Result<Seq<char>, Error> {
    match roomst.items() {
        Some(events) => Ok(name_of_events(events, me)),
        None => Err(Error::MalformedResponse),
    }
}

/// The characters of a string that may be absent.
pub open spec fn text_of(s: Option<&str>) -> Option<Seq<char>> {
    match s {
        Some(t) => Some(t@),
        None => None,
    }
}

/// Whether the event `ev` is of type `kind`.
pub fn type_is(ev: &Json, kind: &str) -> (yes: bool)
    ensures
        yes == has_type(ev@, kind@),
{
    match ev.str_at("type") {
        Some(s) => str_eq(s, kind),
        None => false,
    }
}

fn find_type<'a>(events: &'a Vec<Json>, kind: &str) -> (r: Option<&'a Json>)
    ensures
        match r {
            Some(ev) => first_of_type(json_views(events@), kind@, 0) == Some(ev@),
            None => first_of_type(json_views(events@), kind@, 0) is None,
        },
{
    let mut i: usize = 0;
    while i < events.len()
        invariant
            i <= events@.len(),
            first_of_type(json_views(events@), kind@, 0) == first_of_type(
                json_views(events@),
                kind@,
                i as int,
            ),
        decreases events@.len() - i,
    {
        if type_is(&events[i], kind) {
            return Some(&events[i]);
        }
        i = i + 1;
    }
    None
}

fn subject_is(ev: &Json, user: &str) -> (yes: bool)
    ensures
        yes == (subject(ev@) == user@),
{
    match ev.str_at("sender") {
        Some(s) => str_eq(s, user),
        None => str_eq("", user),
    }
}

fn same_subject(a: &Json, b: &Json) -> (yes: bool)
    ensures
        yes == (subject(a@) == subject(b@)),
{
    match a.str_at("sender") {
        Some(s) => subject_is(b, s),
        None => subject_is(b, ""),
    }
}

fn has_joined(ev: &Json) -> (yes: bool)
    ensures
        yes == joins(ev@),
{
    match ev.get("content") {
        Some(c) => match c.str_at("membership") {
            Some(s) => str_eq(s, "join"),
            None => false,
        },
        None => false,
    }
}

fn spoken_of_later(events: &Vec<Json>, at: usize) -> (yes: bool)
    requires
        at < events@.len(),
    ensures
        yes == speaks_of(json_views(events@), subject(events@[at as int]@), at + 1),
{
    let n = events.len();
    let mut j: usize = at + 1;
    while j < n
        invariant
            n == events@.len(),
            at < j <= n,
            speaks_of(json_views(events@), subject(events@[at as int]@), at + 1) == speaks_of(
                json_views(events@),
                subject(events@[at as int]@),
                j as int,
            ),
        decreases events@.len() - j,
    {
        if type_is(&events[j], "m.room.member") && same_subject(&events[j], &events[at]) {
            return true;
        }
        j = j + 1;
    }
    false
}

/// The positions of the membership events of the joined members, without
/// the user that `skip` names, in rising order.
pub fn current_members(events: &Vec<Json>, skip: Option<&str>) -> (found: Vec<usize>)
    ensures
        found@.len() == members_upto(
            json_views(events@),
            text_of(skip),
            events@.len() as int,
        ).len(),
        found@.len() == positions_upto(
            json_views(events@),
            text_of(skip),
            events@.len() as int,
        ).len(),
        forall|k: int|
            0 <= k < found@.len() ==> (#[trigger] found@[k]) as int == positions_upto(
                json_views(events@),
                text_of(skip),
                events@.len() as int,
            )[k],
        forall|k: int|
            0 <= k < found@.len() ==> 0 <= #[trigger] found@[k] < events@.len()
                && events@[found@[k] as int]@ == members_upto(
                json_views(events@),
                text_of(skip),
                events@.len() as int,
            )[k],
{
    let mut found: Vec<usize> = Vec::new();
    let mut i: usize = 0;
    while i < events.len()
        invariant
            i <= events@.len(),
            found@.len() == members_upto(json_views(events@), text_of(skip), i as int).len(),
            found@.len() == positions_upto(json_views(events@), text_of(skip), i as int).len(),
            forall|k: int|
                0 <= k < found@.len() ==> (#[trigger] found@[k]) as int == positions_upto(
                    json_views(events@),
                    text_of(skip),
                    i as int,
                )[k],
            forall|k: int|
                0 <= k < found@.len() ==> 0 <= #[trigger] found@[k] < events@.len()
                    && events@[found@[k] as int]@ == members_upto(
                    json_views(events@),
                    text_of(skip),
                    i as int,
                )[k],
        decreases events@.len() - i,
    {
        let skipped = match skip {
            Some(user) => subject_is(&events[i], user),
            None => false,
        };
        if type_is(&events[i], "m.room.member") && has_joined(&events[i]) && !skipped
            && !spoken_of_later(events, i) {
            found.push(i);
        }
        i = i + 1;
    }
    found
}

fn shown_name(ev: &Json) -> (name: String)
    ensures
        name@ == display_name(ev@),
{
    ev.string_in("content", "displayname", "")
}

/// The name of the room with the state `roomst`, as the user `userid`
/// sees it.
pub fn calculate_room_name(roomst: &Json, userid: &str) -> (r: Result<String, Error>)
    ensures
        match r {
            Ok(name) => room_name(roomst@, userid@) == Ok::<Seq<char>, Error>(name@),
            Err(e) => room_name(roomst@, userid@) == Err::<Seq<char>, Error>(e),
        },
{
    let events = match roomst.as_array() {
        Some(events) => events,
        None => {
            return Err(Error::MalformedResponse);
        },
    };
    if let Some(ev) = find_type(events, "m.room.name") {
        return Ok(ev.string_in("content", "name", "WRONG NAME"));
    }
    if let Some(ev) = find_type(events, "m.room.canonical_alias") {
        return Ok(ev.string_in("content", "alias", "WRONG ALIAS"));
    }
    let found = current_members(events, Some(userid));
    let name = if found.len() == 0 {
        "EMPTY ROOM".to_owned()
    } else if found.len() == 1 {
        shown_name(&events[found[0]])
    } else if found.len() == 2 {
        join3(
            shown_name(&events[found[0]]).as_str(),
            " and ",
            shown_name(&events[found[1]]).as_str(),
        )
    } else {
        join2(shown_name(&events[found[0]]).as_str(), " and Others")
    };
    Ok(name)
}

/// Where no event from `from` on is of type `kind`, none is found.
pub proof fn lemma_no_event_of_type(events: Seq<JsonV>, kind: Seq<char>, from: int)
    requires
        0 <= from,
        forall|j: int| from <= j < events.len() ==> !has_type(#[trigger] events[j], kind),
    ensures
        first_of_type(events, kind, from) is None,
    decreases events.len() - from,
{
    if from < events.len() {
        lemma_no_event_of_type(events, kind, from + 1);
    }
}

/// The first event of a type is found where it stands.
pub proof fn lemma_first_event_of_type(events: Seq<JsonV>, kind: Seq<char>, from: int, at: int)
    requires
        0 <= from <= at < events.len(),
        has_type(events[at], kind),
        forall|j: int| from <= j < at ==> !has_type(#[trigger] events[j], kind),
    ensures
        first_of_type(events, kind, from) == Some(events[at]),
    decreases at - from,
{
    if from < at {
        lemma_first_event_of_type(events, kind, from + 1, at);
    }
}

/// A name event wins: a room whose state holds a name event is called
/// what the first name event says, whether or not the state holds a
/// canonical alias or members as well.
pub proof fn lemma_name_event_wins(events: Seq<JsonV>, me: Seq<char>, at: int)
    requires
        0 <= at < events.len(),
        has_type(events[at], "m.room.name"@),
        forall|j: int| 0 <= j < at ==> !has_type(#[trigger] events[j], "m.room.name"@),
    ensures
        name_of_events(events, me) == events[at].member("content"@).member("name"@).text_or(
            "WRONG NAME"@,
        ),
{
    lemma_first_event_of_type(events, "m.room.name"@, 0, at);
}

/// Without a name event, the canonical alias names the room.
pub proof fn lemma_alias_names_room(events: Seq<JsonV>, me: Seq<char>, at: int)
    requires
        0 <= at < events.len(),
        has_type(events[at], "m.room.canonical_alias"@),
        forall|j: int|
            0 <= j < at ==> !has_type(#[trigger] events[j], "m.room.canonical_alias"@),
        forall|j: int| 0 <= j < events.len() ==> !has_type(#[trigger] events[j], "m.room.name"@),
    ensures
        name_of_events(events, me) == events[at].member("content"@).member("alias"@).text_or(
            "WRONG ALIAS"@,
        ),
{
    lemma_no_event_of_type(events, "m.room.name"@, 0);
    lemma_first_event_of_type(events, "m.room.canonical_alias"@, 0, at);
}

/// Without a name event and without a canonical alias, the other joined
/// members name the room: none gives `EMPTY ROOM`, one gives that
/// member's display name, two give `A and B`, and more give
/// `A and Others`.
pub proof fn lemma_members_name_room(events: Seq<JsonV>, me: Seq<char>)
    requires
        forall|j: int| 0 <= j < events.len() ==> !has_type(#[trigger] events[j], "m.room.name"@),
        forall|j: int|
            0 <= j < events.len() ==> !has_type(#[trigger] events[j], "m.room.canonical_alias"@),
    ensures
        ({
            let members = others(events, me);
            &&& name_of_events(events, me) == name_from_members(members)
            &&& members.len() == 0 ==> name_of_events(events, me) == "EMPTY ROOM"@
            &&& members.len() == 1 ==> name_of_events(events, me) == display_name(members[0])
            &&& members.len() == 2 ==> name_of_events(events, me) == display_name(members[0])
                + " and "@ + display_name(members[1])
            &&& members.len() >= 3 ==> name_of_events(events, me) == display_name(members[0])
                + " and Others"@
        }),
{
    lemma_no_event_of_type(events, "m.room.name"@, 0);
    lemma_no_event_of_type(events, "m.room.canonical_alias"@, 0);
}

/// Every listed member has joined and is not the user that `skip` names.
pub proof fn lemma_members_have_joined(events: Seq<JsonV>, skip: Option<Seq<char>>, upto: int)
    requires
        0 <= upto <= events.len(),
    ensures
        members_upto(events, skip, upto).len() <= upto,
        forall|k: int|
            0 <= k < members_upto(events, skip, upto).len() ==> {
                let ev = #[trigger] members_upto(events, skip, upto)[k];
                &&& is_membership(ev)
                &&& joins(ev)
                &&& skip != Some(subject(ev))
            },
    decreases upto,
{
    if upto > 0 {
        lemma_members_have_joined(events, skip, upto - 1);
    }
}

/// The joined rooms of a sync response.
pub fn joined_rooms(r: &Json) -> (join: Option<&Vec<(String, Json)>>)
    ensures
        match join {
            Some(rooms) => r@.member("rooms"@).member("join"@).entries() == Some(
                entry_views(rooms@),
            ),
            None => r@.member("rooms"@).member("join"@).entries() is None,
        },
{
    match r.get("rooms") {
        Some(rooms) => match rooms.get("join") {
            Some(join) => join.as_object(),
            None => None,
        },
        None => None,
    }
}

/// The values of a list of pairs of strings.
pub open spec fn pair_views(pairs: Seq<(String, String)>) -> Seq<(Seq<char>, Seq<char>)> {
    Seq::new(pairs.len(), |i: int| (pairs[i].0@, pairs[i].1@))
}

/// The first position from `from` on of a pair with the id `id`, or the
/// length of `pairs` where there is none.
pub open spec fn slot_of(pairs: Seq<(Seq<char>, Seq<char>)>, id: Seq<char>, from: int) -> int
    decreases pairs.len() - from,
{
    if from < 0 || from >= pairs.len() {
        pairs.len() as int
    } else if pairs[from].0 == id {
        from
    } else {
        slot_of(pairs, id, from + 1)
    }
}

/// `pairs` with `name` for the id `id`: in the place of the pair that
/// has this id, or at the end where none has it.
pub open spec fn put(pairs: Seq<(Seq<char>, Seq<char>)>, id: Seq<char>, name: Seq<char>) -> Seq<
    (Seq<char>, Seq<char>),
> {
    let at = slot_of(pairs, id, 0);
    if at < pairs.len() {
        pairs.update(at, (id, name))
    } else {
        pairs.push((id, name))
    }
}

/// Whether no id occurs twice in `pairs`.
pub open spec fn distinct_ids(pairs: Seq<(Seq<char>, Seq<char>)>) -> bool {
    forall|a: int, b: int| 0 <= a < b < pairs.len() ==> pairs[a].0 != pairs[b].0
}

/// The slot of an id lies at or after `from`, holds the id where it lies
/// within `pairs`, and no pair from `from` up to it has the id.
pub proof fn lemma_slot_of(pairs: Seq<(Seq<char>, Seq<char>)>, id: Seq<char>, from: int)
    requires
        0 <= from <= pairs.len(),
    ensures
        from <= slot_of(pairs, id, from) <= pairs.len(),
        slot_of(pairs, id, from) < pairs.len() ==> pairs[slot_of(pairs, id, from)].0 == id,
        forall|j: int| from <= j < slot_of(pairs, id, from) ==> (#[trigger] pairs[j]).0 != id,
    decreases pairs.len() - from,
{
    if from < pairs.len() && pairs[from].0 != id {
        lemma_slot_of(pairs, id, from + 1);
    }
}

/// Putting a name for an id leaves every id in `pairs` once.
pub proof fn lemma_put_keeps_distinct(
    pairs: Seq<(Seq<char>, Seq<char>)>,
    id: Seq<char>,
    name: Seq<char>,
)
    requires
        distinct_ids(pairs),
    ensures
        distinct_ids(put(pairs, id, name)),
{
    lemma_slot_of(pairs, id, 0);
    let at = slot_of(pairs, id, 0);
    let after = put(pairs, id, name);
    assert forall|a: int, b: int| 0 <= a < b < after.len() implies after[a].0 != after[b].0 by {
        if at < pairs.len() {
            assert(after[a].0 == pairs[a].0);
            assert(after[b].0 == pairs[b].0);
        } else {
            if b < pairs.len() {
                assert(after[a] == pairs[a]);
                assert(after[b] == pairs[b]);
            } else {
                assert(after[a] == pairs[a]);
                assert(pairs[a].0 != id);
            }
        }
    }
}

/// The ids and names of the first `upto` rooms, each id once, with the
/// name of the last room under that id; or the error of the first room
/// whose state cannot be read.
pub open spec fn names_upto(rooms: Seq<(Seq<char>, JsonV)>, me: Seq<char>, upto: int) -> Result<
    Seq<(Seq<char>, Seq<char>)>,
    Error,
>
    decreases upto,
{
    if upto <= 0 {
        Ok(Seq::empty())
    } else {
        match names_upto(rooms, me, upto - 1) {
            Err(e) => Err(e),
            Ok(before) => match room_name(
                rooms[upto - 1].1.member("state"@).member("events"@),
                me,
            ) {
                Ok(name) => Ok(put(before, rooms[upto - 1].0, name)),
                Err(e) => Err(e),
            },
        }
    }
}

/// No room is listed twice.
pub proof fn lemma_names_are_distinct(rooms: Seq<(Seq<char>, JsonV)>, me: Seq<char>, upto: int)
    requires
        0 <= upto <= rooms.len(),
    ensures
        names_upto(rooms, me, upto) matches Ok(list) ==> distinct_ids(list),
    decreases upto,
{
    if upto > 0 {
        lemma_names_are_distinct(rooms, me, upto - 1);
        match names_upto(rooms, me, upto - 1) {
            Ok(before) => match room_name(
                rooms[upto - 1].1.member("state"@).member("events"@),
                me,
            ) {
                Ok(name) => {
                    lemma_put_keeps_distinct(before, rooms[upto - 1].0, name);
                },
                Err(_) => {},
            },
            Err(_) => {},
        }
    }
}

/// The joined rooms of a sync response with their names, as the user
/// `me` sees them; a response without an object of joined rooms is
/// malformed.
pub open spec fn rooms_of(r: JsonV, me: Seq<char>) -> Result<
    Seq<(Seq<char>, Seq<char>)>,
    Error,
> {
    match r.member("rooms"@).member("join"@).entries() {
        Some(rooms) => names_upto(rooms, me, rooms.len() as int),
        None => Err(Error::MalformedResponse),
    }
}

/// An error among the first rooms is the error of the whole list.
pub proof fn lemma_names_error_stays(
    rooms: Seq<(Seq<char>, JsonV)>,
    me: Seq<char>,
    at: int,
    upto: int,
)
    requires
        0 <= at <= upto,
        names_upto(rooms, me, at) is Err,
    ensures
        names_upto(rooms, me, upto) == names_upto(rooms, me, at),
    decreases upto - at,
{
    if at < upto {
        lemma_names_error_stays(rooms, me, at, upto - 1);
    }
}

/// Puts `name` for the id `id` into `list`.
fn put_name(list: &mut Vec<(String, String)>, id: String, name: String)
    ensures
        pair_views(final(list)@) == put(pair_views(old(list)@), id@, name@),
{
    let ghost before = pair_views(list@);
    let mut at: usize = 0;
    while at < list.len()
        invariant
            at <= list@.len(),
            before == pair_views(list@),
            before == pair_views(old(list)@),
            slot_of(before, id@, 0) == slot_of(before, id@, at as int),
        decreases list@.len() - at,
    {
        assert(before[at as int].0 == list@[at as int].0@);
        if str_eq(list[at].0.as_str(), id.as_str()) {
            assert(slot_of(before, id@, at as int) == at);
            list.set(at, (id, name));
            assert(pair_views(list@) =~= before.update(at as int, (id@, name@)));
            return;
        }
        at = at + 1;
    }
    list.push((id, name));
    assert(pair_views(list@) =~= before.push((id@, name@)));
}

/// The joined rooms of a sync response, each with its id and its name,
/// in the order of the response.  No room is listed twice.
pub fn get_rooms_from_json(r: &Json, userid: &str) -> (rooms: Result<
    Vec<(String, String)>,
    Error,
>)
    ensures
        match rooms {
            Ok(list) => rooms_of(r@, userid@) == Ok::<Seq<(Seq<char>, Seq<char>)>, Error>(
                pair_views(list@),
            ),
            Err(e) => rooms_of(r@, userid@) == Err::<Seq<(Seq<char>, Seq<char>)>, Error>(e),
        },
        rooms matches Ok(list) ==> distinct_ids(pair_views(list@)),
{
    let join = match joined_rooms(r) {
        Some(join) => join,
        None => {
            return Err(Error::MalformedResponse);
        },
    };
    let mut list: Vec<(String, String)> = Vec::new();
    let mut i: usize = 0;
    assert(pair_views(list@) =~= Seq::empty());
    while i < join.len()
        invariant
            i <= join@.len(),
            r@.member("rooms"@).member("join"@).entries() == Some(entry_views(join@)),
            names_upto(entry_views(join@), userid@, i as int) == Ok::<
                Seq<(Seq<char>, Seq<char>)>,
                Error,
            >(pair_views(list@)),
        decreases join@.len() - i,
    {
        let state = match join[i].1.get("state") {
            Some(st) => st.get("events"),
            None => None,
        };
        let named = match state {
            Some(events) => calculate_room_name(events, userid),
            None => Err(Error::MalformedResponse),
        };
        match named {
            Ok(name) => {
                put_name(&mut list, join[i].0.clone(), name);
            },
            Err(e) => {
                proof {
                    lemma_names_error_stays(
                        entry_views(join@),
                        userid@,
                        i + 1,
                        join@.len() as int,
                    );
                }
                return Err(e);
            },
        }
        i = i + 1;
    }
    proof {
        lemma_names_are_distinct(entry_views(join@), userid@, join@.len() as int);
    }
    Ok(list)
}

/// The member that a membership event describes.
pub open spec fn member_of(ev: JsonV) -> MemberV {
    MemberV {
        alias: display_name(ev),
        uid: subject(ev),
        avatar: ev.member("content"@).member("avatar_url"@).text_or(""@),
    }
}

/// The members that a list of membership events shows to have joined,
/// each user once, the one whose event stands last coming first; every
/// one of them is valid.  A response without a list of events, or with a
/// joined member that has no user id, is malformed.
pub open spec fn roster_of(r: JsonV) -> Result<Seq<MemberV>, Error> {
    match r.member("chunk"@).items() {
        Some(chunk) => {
            let joined = members_upto(chunk, None, chunk.len() as int);
            if forall|k: int| 0 <= k < joined.len() ==> subject(#[trigger] joined[k]).len() > 0 {
                Ok(Seq::new(joined.len(), |k: int| member_of(joined[joined.len() - 1 - k])))
            } else {
                Err(Error::MalformedResponse)
            }
        },
        None => Err(Error::MalformedResponse),
    }
}

/// Decodes the members of a room from the answer to a members request.
pub fn room_members(r: &Json) -> (members: Result<Vec<Member>, Error>)
    ensures
        match members {
            Ok(list) => roster_of(r@) == Ok::<Seq<MemberV>, Error>(member_views(list@)),
            Err(e) => roster_of(r@) == Err::<Seq<MemberV>, Error>(e),
        },
        members matches Ok(list) ==> forall|k: int|
            0 <= k < list@.len() ==> (#[trigger] list@[k])@.is_valid(),
{
    let chunk = match r.get("chunk") {
        Some(c) => match c.as_array() {
            Some(chunk) => chunk,
            None => {
                return Err(Error::MalformedResponse);
            },
        },
        None => {
            return Err(Error::MalformedResponse);
        },
    };
    let found = current_members(chunk, None);
    let ghost joined = members_upto(json_views(chunk@), None, chunk@.len() as int);
    let n = found.len();
    let mut list: Vec<Member> = Vec::new();
    let mut k: usize = n;
    while k > 0
        invariant
            k <= n,
            n == found@.len(),
            n == joined.len(),
            r@.member("chunk"@).items() == Some(json_views(chunk@)),
            joined == members_upto(json_views(chunk@), None, chunk@.len() as int),
            forall|j: int|
                0 <= j < n ==> 0 <= #[trigger] found@[j] < chunk@.len() && chunk@[found@[j] as int]@
                    == joined[j],
            list@.len() == n - k,
            forall|j: int| k <= j < n ==> subject(#[trigger] joined[j]).len() > 0,
            forall|j: int| 0 <= j < n - k ==> (#[trigger] list@[j])@ == member_of(joined[n - 1 - j]),
        decreases k,
    {
        k = k - 1;
        let ev = &chunk[found[k]];
        let uid = match ev.str_at("sender") {
            Some(s) => s.to_owned(),
            None => "".to_owned(),
        };
        if uid.as_str().is_empty() {
            assert(subject(joined[k as int]).len() == 0);
            return Err(Error::MalformedResponse);
        }
        list.push(
            Member {
                alias: shown_name(ev),
                uid,
                avatar: ev.string_in("content", "avatar_url", ""),
            },
        );
    }
    assert(member_views(list@) =~= Seq::new(
        joined.len(),
        |k: int| member_of(joined[joined.len() - 1 - k]),
    ));
    Ok(list)
}

/// The positions of the events that `members_upto` lists.
pub open spec fn positions_upto(events: Seq<JsonV>, skip: Option<Seq<char>>, upto: int) -> Seq<
    int,
>
    decreases upto,
{
    if upto <= 0 {
        Seq::empty()
    } else if is_member_at(events, skip, upto - 1) {
        positions_upto(events, skip, upto - 1).push(upto - 1)
    } else {
        positions_upto(events, skip, upto - 1)
    }
}

/// Every listed member stands at its position, the positions rise, and
/// the event at each of them is the last word on its user.
pub proof fn lemma_member_positions(events: Seq<JsonV>, skip: Option<Seq<char>>, upto: int)
    requires
        0 <= upto <= events.len(),
    ensures
        positions_upto(events, skip, upto).len() == members_upto(events, skip, upto).len(),
        forall|k: int|
            0 <= k < positions_upto(events, skip, upto).len() ==> {
                let at = #[trigger] positions_upto(events, skip, upto)[k];
                &&& 0 <= at < upto
                &&& is_member_at(events, skip, at)
                &&& members_upto(events, skip, upto)[k] == events[at]
            },
        forall|a: int, b: int|
            0 <= a < b < positions_upto(events, skip, upto).len() ==> positions_upto(
                events,
                skip,
                upto,
            )[a] < positions_upto(events, skip, upto)[b],
    decreases upto,
{
    if upto > 0 {
        lemma_member_positions(events, skip, upto - 1);
    }
}

/// A membership event about a user is found from every earlier position.
pub proof fn lemma_spoken_of(events: Seq<JsonV>, user: Seq<char>, from: int, at: int)
    requires
        0 <= from <= at < events.len(),
        is_membership(events[at]),
        subject(events[at]) == user,
    ensures
        speaks_of(events, user, from),
    decreases at - from,
{
    if from < at && !(is_membership(events[from]) && subject(events[from]) == user) {
        lemma_spoken_of(events, user, from + 1, at);
    }
}

/// No user is listed twice: of the membership events about one user only
/// the last counts.
pub proof fn lemma_members_are_distinct(
    events: Seq<JsonV>,
    skip: Option<Seq<char>>,
    a: int,
    b: int,
)
    requires
        0 <= a < b < members_upto(events, skip, events.len() as int).len(),
    ensures
        subject(members_upto(events, skip, events.len() as int)[a]) != subject(
            members_upto(events, skip, events.len() as int)[b],
        ),
{
    let n = events.len() as int;
    lemma_member_positions(events, skip, n);
    let first = positions_upto(events, skip, n)[a];
    let second = positions_upto(events, skip, n)[b];
    if subject(events[first]) == subject(events[second]) {
        lemma_spoken_of(events, subject(events[first]), first + 1, second);
    }
}

/// A later event about a user supersedes an earlier one: an event that
/// is followed by a membership event about the same user is not listed.
pub proof fn lemma_later_event_supersedes(
    events: Seq<JsonV>,
    skip: Option<Seq<char>>,
    earlier: int,
    later: int,
)
    requires
        0 <= earlier < later < events.len(),
        is_membership(events[later]),
        subject(events[later]) == subject(events[earlier]),
    ensures
        !is_member_at(events, skip, earlier),
{
    lemma_spoken_of(events, subject(events[earlier]), earlier + 1, later);
}

} // verus!
