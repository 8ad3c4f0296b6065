use guillotine::error::Error;
use guillotine::json::Json;
use guillotine::request::entry;
use guillotine::room::{calculate_room_name, get_rooms_from_json, room_members};
use guillotine::types::Member;

fn doc(text: &str) -> Json {
    match Json::parse(text) {
        Ok(doc) => doc,
        Err(e) => panic!("not JSON: {:?}", e),
    }
}

fn member_event(user: &str, name: &str, membership: &str) -> String {
    format!(
        "{{\"type\":\"m.room.member\",\"sender\":\"{}\",\"content\":{{\"membership\":\"{}\",\"displayname\":\"{}\"}}}}",
        user, membership, name
    )
}

#[test]
fn name_event_wins_over_alias() {
    let st = doc(
        "[{\"type\":\"m.room.canonical_alias\",\"content\":{\"alias\":\"#lobby:example.org\"}},\
          {\"type\":\"m.room.name\",\"content\":{\"name\":\"Lobby\"}}]",
    );
    assert_eq!(calculate_room_name(&st, "@me:example.org"), Ok("Lobby".to_string()));
}

#[test]
fn alias_names_room_without_name_event() {
    let st = doc(
        "[{\"type\":\"m.room.member\",\"sender\":\"@a:x\",\"content\":{\"membership\":\"join\",\"displayname\":\"Alice\"}},\
          {\"type\":\"m.room.canonical_alias\",\"content\":{\"alias\":\"#lobby:example.org\"}}]",
    );
    assert_eq!(calculate_room_name(&st, "@me:example.org"), Ok("#lobby:example.org".to_string()));
}

#[test]
fn name_event_without_name_reads_wrong_name() {
    let st = doc("[{\"type\":\"m.room.name\",\"content\":{}}]");
    assert_eq!(calculate_room_name(&st, "@me:x"), Ok("WRONG NAME".to_string()));
    let st = doc("[{\"type\":\"m.room.canonical_alias\",\"content\":{\"alias\":7}}]");
    assert_eq!(calculate_room_name(&st, "@me:x"), Ok("WRONG ALIAS".to_string()));
}

#[test]
fn empty_room_has_its_own_name() {
    let st = doc(&format!("[{}]", member_event("@me:x", "Me", "join")));
    assert_eq!(calculate_room_name(&st, "@me:x"), Ok("EMPTY ROOM".to_string()));
    assert_eq!(calculate_room_name(&doc("[]"), "@me:x"), Ok("EMPTY ROOM".to_string()));
}

#[test]
fn one_other_member_names_room() {
    let st = doc(&format!(
        "[{},{}]",
        member_event("@me:x", "Me", "join"),
        member_event("@a:x", "Alice", "join")
    ));
    assert_eq!(calculate_room_name(&st, "@me:x"), Ok("Alice".to_string()));
}

#[test]
fn two_other_members_are_both_named() {
    let st = doc(&format!(
        "[{},{},{}]",
        member_event("@a:x", "Alice", "join"),
        member_event("@me:x", "Me", "join"),
        member_event("@b:x", "Bob", "join")
    ));
    assert_eq!(calculate_room_name(&st, "@me:x"), Ok("Alice and Bob".to_string()));
}

#[test]
fn four_other_members_end_with_and_others() {
    let st = doc(&format!(
        "[{},{},{},{}]",
        member_event("@a:x", "Alice", "join"),
        member_event("@b:x", "Bob", "join"),
        member_event("@c:x", "Carol", "join"),
        member_event("@d:x", "Dave", "join")
    ));
    let name = match calculate_room_name(&st, "@me:x") {
        Ok(name) => name,
        Err(e) => panic!("no name: {:?}", e),
    };
    assert!(name.ends_with("and Others"));
    assert_eq!(name, "Alice and Others");
}

#[test]
fn later_membership_event_supersedes_earlier() {
    // Alice joins and leaves again; Bob joins twice under two names.
    let st = doc(&format!(
        "[{},{},{},{}]",
        member_event("@a:x", "Alice", "join"),
        member_event("@b:x", "Bob", "join"),
        member_event("@a:x", "Alice", "leave"),
        member_event("@b:x", "Robert", "join")
    ));
    assert_eq!(calculate_room_name(&st, "@me:x"), Ok("Robert".to_string()));
}

#[test]
fn invited_and_banned_members_do_not_count() {
    let st = doc(&format!(
        "[{},{},{}]",
        member_event("@a:x", "Alice", "invite"),
        member_event("@b:x", "Bob", "ban"),
        member_event("@c:x", "Carol", "join")
    ));
    assert_eq!(calculate_room_name(&st, "@me:x"), Ok("Carol".to_string()));
}

#[test]
fn state_that_is_no_array_has_no_name() {
    assert_eq!(calculate_room_name(&doc("{}"), "@me:x"), Err(Error::MalformedResponse));
    assert_eq!(calculate_room_name(&doc("null"), "@me:x"), Err(Error::MalformedResponse));
}

#[test]
fn rooms_of_sync_are_named() {
    let r = doc(&format!(
        "{{\"next_batch\":\"s1\",\"rooms\":{{\"join\":{{\
           \"!a:x\":{{\"state\":{{\"events\":[{{\"type\":\"m.room.name\",\"content\":{{\"name\":\"Lobby\"}}}}]}}}},\
           \"!b:x\":{{\"state\":{{\"events\":[{},{}]}}}}}}}}}}",
        member_event("@a:x", "Alice", "join"),
        member_event("@b:x", "Bob", "join")
    ));
    let rooms = match get_rooms_from_json(&r, "@me:x") {
        Ok(rooms) => rooms,
        Err(e) => panic!("no rooms: {:?}", e),
    };
    assert_eq!(
        rooms,
        vec![
            ("!a:x".to_string(), "Lobby".to_string()),
            ("!b:x".to_string(), "Alice and Bob".to_string())
        ]
    );
}

#[test]
fn sync_without_joined_rooms_is_an_error() {
    assert_eq!(get_rooms_from_json(&doc("{\"rooms\":{}}"), "@me:x"), Err(Error::MalformedResponse));
    assert_eq!(
        get_rooms_from_json(&doc("{\"rooms\":{\"join\":{\"!a:x\":{}}}}"), "@me:x"),
        Err(Error::MalformedResponse)
    );
}

#[test]
fn member_without_display_name_reports_user_id() {
    let m = Member { alias: String::new(), uid: "@a:x".to_string(), avatar: String::new() };
    assert_eq!(m.get_alias(), "@a:x");
    let m = Member { alias: "Alice".to_string(), uid: "@a:x".to_string(), avatar: String::new() };
    assert_eq!(m.get_alias(), "Alice");
}

#[test]
fn only_joined_members_are_listed_last_event_first() {
    let r = doc(&format!(
        "{{\"chunk\":[{},{},{},{{\"type\":\"m.room.topic\",\"sender\":\"@z:x\"}},{}]}}",
        member_event("@a:x", "Alice", "join"),
        member_event("@b:x", "", "join"),
        member_event("@c:x", "Carol", "leave"),
        member_event("@d:x", "Dave", "invite")
    ));
    let members = match room_members(&r) {
        Ok(members) => members,
        Err(e) => panic!("no members: {:?}", e),
    };
    assert_eq!(members.len(), 2);
    assert_eq!(members[0].uid, "@b:x");
    assert_eq!(members[0].get_alias(), "@b:x");
    assert_eq!(members[1].uid, "@a:x");
    assert_eq!(members[1].alias, "Alice");
    for m in members.iter() {
        assert!(!m.get_alias().is_empty());
    }
}

#[test]
fn members_answer_without_chunk_is_malformed() {
    assert!(matches!(room_members(&doc("{}")), Err(Error::MalformedResponse)));
    let r = doc("{\"chunk\":[{\"type\":\"m.room.member\",\"content\":{\"membership\":\"join\"}}]}");
    assert!(matches!(room_members(&r), Err(Error::MalformedResponse)));
}

fn named_room(name: &str) -> Json {
    doc(&format!(
        "{{\"state\":{{\"events\":[{{\"type\":\"m.room.name\",\"content\":{{\"name\":\"{}\"}}}}]}}}}",
        name
    ))
}

#[test]
fn room_listed_twice_is_kept_once_with_its_last_name() {
    let join = Json::object(vec![
        entry("!a:x", named_room("First")),
        entry("!b:x", named_room("Other")),
        entry("!a:x", named_room("Second")),
    ]);
    let r = Json::object(vec![entry("rooms", Json::object(vec![entry("join", join)]))]);
    assert_eq!(
        get_rooms_from_json(&r, "@me:x"),
        Ok(vec![
            ("!a:x".to_string(), "Second".to_string()),
            ("!b:x".to_string(), "Other".to_string())
        ])
    );
}
