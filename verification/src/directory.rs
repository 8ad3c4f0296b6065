//! The public room directory: the rooms it lists and the protocols it
//! bridges to.

use vstd::prelude::*;
use crate::error::Error;
use crate::json::{entry_views, json_views, Json, JsonV};
use crate::text::{last_segment, segment_after};
use crate::types::{protocol_views, room_views, Protocol, ProtocolV, Room, RoomV};

verus! {

/// The number of joined members that a directory entry states, 0 where
/// it states none; a number beyond `i32` is cut to its low 32 bits.
pub open spec fn member_count(entry: JsonV) -> i32 {
    match entry.member("num_joined_members"@).integer() {
        Some(n) => n as i32,
        None => 0,
    }
}

/// A flag of a directory entry, `false` where the entry lacks it.
pub open spec fn flag(entry: JsonV, key: Seq<char>) -> bool {
    match entry.member(key).boolean() {
        Some(b) => b,
        None => false,
    }
}

/// The room that a directory entry describes.  A text that the entry
/// lacks is empty.
pub open spec fn room_of(entry: JsonV) -> RoomV {
    RoomV {
        id: entry.member("room_id"@).text_or(""@),
        avatar: entry.member("avatar_url"@).text_or(""@),
        name: entry.member("name"@).text_or(""@),
        topic: entry.member("topic"@).text_or(""@),
        alias: entry.member("canonical_alias"@).text_or(""@),
        guest_can_join: flag(entry, "guest_can_join"@),
        world_readable: flag(entry, "world_readable"@),
        members: member_count(entry),
        notifications: 0,
    }
}

/// The rooms that a directory response lists, in its order; a response
/// without a list is malformed.
pub open spec fn rooms_listed(r: JsonV) -> Result<Seq<RoomV>, Error> {
    match r.member("chunk"@).items() {
        Some(chunk) => Ok(Seq::new(chunk.len(), |i: int| room_of(chunk[i]))),
        None => Err(Error::MalformedResponse),
    }
}

fn flag_at(entry: &Json, key: &str) -> (b: bool)
    ensures
        b == flag(entry@, key@),
{
    match entry.get(key) {
        Some(v) => match v.as_bool() {
            Some(b) => b,
            None => false,
        },
        None => false,
    }
}

fn room_from(entry: &Json) -> (room: Room)
    ensures
        room@ == room_of(entry@),
{
    let members: i32 = match entry.get("num_joined_members") {
        Some(v) => match v.as_i64() {
            Some(n) => #[verifier::truncate]
            (n as i32),
            None => 0,
        },
        None => 0,
    };
    Room {
        id: entry.string_at("room_id", ""),
        avatar: entry.string_at("avatar_url", ""),
        name: entry.string_at("name", ""),
        topic: entry.string_at("topic", ""),
        alias: entry.string_at("canonical_alias", ""),
        guest_can_join: flag_at(entry, "guest_can_join"),
        world_readable: flag_at(entry, "world_readable"),
        members,
        notifications: 0,
    }
}

/// Decodes the rooms of a directory response.
pub fn directory_rooms(r: &Json) -> (rooms: Result<Vec<Room>, Error>)
    ensures
        match rooms {
            Ok(list) => rooms_listed(r@) == Ok::<Seq<RoomV>, Error>(room_views(list@)),
            Err(e) => rooms_listed(r@) == Err::<Seq<RoomV>, Error>(e),
        },
{
    let chunk = match r.get("chunk") {
        Some(c) => match c.as_array() {
            Some(chunk) => chunk,
            None => {
                return Err(Error::MalformedResponse);
            },
        },
        None => {
            return Err(Error::MalformedResponse);
        },
    };
    let mut list: Vec<Room> = Vec::new();
    let mut i: usize = 0;
    while i < chunk.len()
        invariant
            i <= chunk@.len(),
            list@.len() == i,
            forall|k: int| 0 <= k < i ==> (#[trigger] list@[k])@ == room_of(chunk@[k]@),
        decreases chunk@.len() - i,
    {
        list.push(room_from(&chunk[i]));
        i = i + 1;
    }
    assert(room_views(list@) =~= Seq::new(
        json_views(chunk@).len(),
        |i: int| room_of(json_views(chunk@)[i]),
    ));
    Ok(list)
}

/// The protocol that one instance of a bridge stands for; an instance
/// without an id or without a description has none.
pub open spec fn protocol_of(instance: JsonV) -> Option<ProtocolV> {
    match (instance.member("instance_id"@).text(), instance.member("desc"@).text()) {
        (Some(id), Some(desc)) => Some(ProtocolV { id, desc }),
        _ => None,
    }
}

/// The protocols of the first `upto` instances, or nothing where one of
/// them has none.
pub open spec fn instances_upto(instances: Seq<JsonV>, upto: int) -> Option<Seq<ProtocolV>>
    decreases upto,
{
    if upto <= 0 {
        Some(Seq::empty())
    } else {
        match (instances_upto(instances, upto - 1), protocol_of(instances[upto - 1])) {
            (Some(before), Some(p)) => Some(before.push(p)),
            _ => None,
        }
    }
}

/// The protocols of the instances of the first `upto` bridges, or
/// nothing where a bridge lacks its list of instances or an instance has
/// no protocol.
pub open spec fn bridged_upto(bridges: Seq<(Seq<char>, JsonV)>, upto: int) -> Option<
    Seq<ProtocolV>,
>
    decreases upto,
{
    if upto <= 0 {
        Some(Seq::empty())
    } else {
        match (
            bridged_upto(bridges, upto - 1),
            bridges[upto - 1].1.member("instances"@).items(),
        ) {
            (Some(before), Some(instances)) => match instances_upto(
                instances,
                instances.len() as int,
            ) {
                Some(list) => Some(before + list),
                None => None,
            },
            _ => None,
        }
    }
}

/// The entry that stands for the home server at the URL `server`: no
/// id, and what follows the last `/` of the URL as its description.
pub open spec fn home_protocol(server: Seq<char>) -> ProtocolV {
    ProtocolV { id: Seq::empty(), desc: last_segment(server, '/') }
}

/// The protocols that the directory offers: the home server first, then
/// every instance of every bridge that the response lists.  A response
/// that is no object, or lacks one of the fields read, is malformed.
pub open spec fn protocols_of(server: Seq<char>, r: JsonV) -> Result<Seq<ProtocolV>, Error> {
    match r.entries() {
        Some(bridges) => match bridged_upto(bridges, bridges.len() as int) {
            Some(list) => Ok(seq![home_protocol(server)] + list),
            None => Err(Error::MalformedResponse),
        },
        None => Err(Error::MalformedResponse),
    }
}

/// A missing field among the first instances is missing from the whole.
pub proof fn lemma_instances_none_stays(instances: Seq<JsonV>, at: int, upto: int)
    requires
        0 <= at <= upto,
        instances_upto(instances, at) is None,
    ensures
        instances_upto(instances, upto) is None,
    decreases upto - at,
{
    if at < upto {
        lemma_instances_none_stays(instances, at, upto - 1);
    }
}

/// A missing field among the first bridges is missing from the whole.
pub proof fn lemma_bridged_none_stays(bridges: Seq<(Seq<char>, JsonV)>, at: int, upto: int)
    requires
        0 <= at <= upto,
        bridged_upto(bridges, at) is None,
    ensures
        bridged_upto(bridges, upto) is None,
    decreases upto - at,
{
    if at < upto {
        lemma_bridged_none_stays(bridges, at, upto - 1);
    }
}

/// Appends the protocols of `instances` to `list`, and says whether every
/// instance had one.
fn push_instances(instances: &Vec<Json>, list: &mut Vec<Protocol>) -> (complete: bool)
    ensures
        match instances_upto(json_views(instances@), instances@.len() as int) {
            Some(added) => complete && protocol_views(final(list)@) == protocol_views(old(list)@)
                + added,
            None => !complete,
        },
{
    let ghost start = protocol_views(list@);
    let mut i: usize = 0;
    assert(protocol_views(list@) =~= start + Seq::<ProtocolV>::empty());
    while i < instances.len()
        invariant
            i <= instances@.len(),
            instances_upto(json_views(instances@), i as int) matches Some(added)
                && protocol_views(list@) == start + added,
        decreases instances@.len() - i,
    {
        let ghost added = instances_upto(json_views(instances@), i as int)->0;
        let id = instances[i].str_at("instance_id");
        let desc = instances[i].str_at("desc");
        match (id, desc) {
            (Some(id), Some(desc)) => {
                let p = Protocol { id: id.to_owned(), desc: desc.to_owned() };
                let ghost before = protocol_views(list@);
                let ghost pv = p@;
                list.push(p);
                assert(protocol_views(list@) =~= before.push(pv));
                assert(before.push(pv) =~= start + added.push(pv));
            },
            _ => {
                proof {
                    lemma_instances_none_stays(
                        json_views(instances@),
                        i + 1,
                        instances@.len() as int,
                    );
                }
                return false;
            },
        }
        i = i + 1;
    }
    true
}

/// Decodes the list of protocols for the directory of the server at the
/// URL `server`.
pub fn protocol_list(server: &str, r: &Json) -> (protocols: Result<Vec<Protocol>, Error>)
    ensures
        match protocols {
            Ok(list) => protocols_of(server@, r@) == Ok::<Seq<ProtocolV>, Error>(
                protocol_views(list@),
            ),
            Err(e) => protocols_of(server@, r@) == Err::<Seq<ProtocolV>, Error>(e),
        },
{
    let bridges = match r.as_object() {
        Some(bridges) => bridges,
        None => {
            return Err(Error::MalformedResponse);
        },
    };
    let mut list: Vec<Protocol> = Vec::new();
    list.push(Protocol { id: String::new(), desc: segment_after(server, '/') });
    let mut i: usize = 0;
    assert(protocol_views(list@) =~= seq![home_protocol(server@)] + Seq::<ProtocolV>::empty());
    while i < bridges.len()
        invariant
            i <= bridges@.len(),
            r@.entries() == Some(entry_views(bridges@)),
            bridged_upto(entry_views(bridges@), i as int) matches Some(added) && protocol_views(
                list@,
            ) == seq![home_protocol(server@)] + added,
        decreases bridges@.len() - i,
    {
        let ghost added = bridged_upto(entry_views(bridges@), i as int)->0;
        let instances = match bridges[i].1.get("instances") {
            Some(v) => v.as_array(),
            None => None,
        };
        let complete = match instances {
            Some(instances) => {
                let ghost more = instances_upto(json_views(instances@), instances@.len() as int);
                let complete = push_instances(instances, &mut list);
                proof {
                    if complete {
                        assert(protocol_views(list@) =~= seq![home_protocol(server@)] + (added
                            + more->0));
                    }
                }
                complete
            },
            None => false,
        };
        if !complete {
            proof {
                lemma_bridged_none_stays(entry_views(bridges@), i + 1, bridges@.len() as int);
            }
            return Err(Error::MalformedResponse);
        }
        i = i + 1;
    }
    Ok(list)
}

} // verus!
