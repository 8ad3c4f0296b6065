use guillotine::directory::{directory_rooms, protocol_list};
use guillotine::error::Error;
use guillotine::json::Json;
use guillotine::markup::{escape, markup, trim};
use guillotine::request::entry;
use guillotine::text::{decimal, segment_after, str_eq};
use guillotine::types::Room;
use guillotine::web::{absolute, join, resolve};

fn listing(text: &str) -> Json {
    match Json::parse(text) {
        Ok(doc) => doc,
        Err(e) => panic!("not JSON: {:?}", e),
    }
}

#[test]
fn markup_escapes_special_characters() {
    assert_eq!(markup("  a < b & c > d \n"), "a &lt; b &amp; c &gt; d");
    assert_eq!(markup(""), "");
    assert_eq!(markup(" \t "), "");
    assert_eq!(escape("<&>"), "&lt;&amp;&gt;");
    assert_eq!(trim("\u{a0} x y \u{2003}"), "x y");
}

#[test]
fn markup_wraps_links() {
    assert_eq!(
        markup("see http://example.org/x."),
        "see <a href=\"http://example.org/x\">http://example.org/x</a>."
    );
    assert_eq!(
        markup("https://a.org/?q=1&r=2 and more"),
        "<a href=\"https://a.org/?q=1&amp;r=2\">https://a.org/?q=1&amp;r=2</a> and more"
    );
    assert_eq!(markup("ftp://example.org"), "ftp://example.org");
}

#[test]
fn numbers_are_written_in_decimal() {
    assert_eq!(decimal(0), "0");
    assert_eq!(decimal(7), "7");
    assert_eq!(decimal(64), "64");
    assert_eq!(decimal(-305), "-305");
    assert_eq!(decimal(i64::MAX), "9223372036854775807");
    assert_eq!(decimal(i64::MIN), "-9223372036854775808");
}

#[test]
fn last_segment_follows_last_separator() {
    assert_eq!(segment_after("https://matrix.org", '/'), "matrix.org");
    assert_eq!(segment_after("https://matrix.org/", '/'), "");
    assert_eq!(segment_after("m.room.topic", '.'), "topic");
    assert_eq!(segment_after("topic", '.'), "topic");
    assert!(str_eq("käse", "käse"));
    assert!(!str_eq("a", "b"));
}

#[test]
fn json_is_decoded_and_encoded() {
    let doc = listing("{\"b\":[1,true,null,\"x\"],\"a\":{\"n\":-3}}");
    assert_eq!(doc.to_text(), "{\"a\":{\"n\":-3},\"b\":[1,true,null,\"x\"]}");
    assert_eq!(doc.get("a").and_then(|a| a.get("n")).and_then(|n| n.as_i64()), Some(-3));
    assert_eq!(doc.str_at("a"), None);
    assert_eq!(doc.string_at("missing", "dflt"), "dflt");
    assert_eq!(listing("1.5").as_i64(), None);
    assert_eq!(listing("18446744073709551615").as_i64(), None);
    assert_eq!(listing("\"s\"").as_str(), Some("s"));
    assert_eq!(listing("false").as_bool(), Some(false));
    assert!(matches!(Json::parse("{"), Err(Error::MalformedResponse)));
    assert!(matches!(Json::parse(""), Err(Error::MalformedResponse)));
    let built = Json::object(vec![
        entry("type", Json::text("m.text")),
        entry("n", Json::Number(Some(20))),
        entry("list", Json::array(vec![Json::Null, Json::Bool(true)])),
    ]);
    assert_eq!(built.to_text(), "{\"list\":[null,true],\"n\":20,\"type\":\"m.text\"}");
}

#[test]
fn urls_are_resolved_step_by_step() {
    assert_eq!(absolute("https://example.org"), Ok("https://example.org/".to_string()));
    assert_eq!(absolute("example.org"), Err(Error::BackendError));
    assert_eq!(
        join("https://example.org/a/b", "c?d=1"),
        Ok("https://example.org/a/c?d=1".to_string())
    );
    assert_eq!(join("nonsense", "c"), Err(Error::BackendError));
    let parts = vec![
        "/_matrix/client/r0/rooms/".to_string(),
        "!r:example.org/".to_string(),
        "messages".to_string(),
        "?access_token=tk&dir=b&limit=8".to_string(),
    ];
    assert_eq!(
        resolve("https://example.org/", &parts),
        Ok("https://example.org/_matrix/client/r0/rooms/!r:example.org/messages?access_token=tk&dir=b&limit=8"
            .to_string())
    );
    assert_eq!(resolve("https://example.org/", &Vec::new()), Ok("https://example.org/".to_string()));
}

#[test]
fn directory_rooms_are_read_with_defaults() {
    let r = listing(
        "{\"next_batch\":\"page2\",\"chunk\":[\
           {\"room_id\":\"!a:x\",\"name\":\"A\",\"topic\":\"T\",\"canonical_alias\":\"#a:x\",\
            \"avatar_url\":\"mxc://x/a\",\"num_joined_members\":12,\"world_readable\":true,\
            \"guest_can_join\":true},\
           {}]}",
    );
    let rooms = match directory_rooms(&r) {
        Ok(rooms) => rooms,
        Err(e) => panic!("no rooms: {:?}", e),
    };
    assert_eq!(rooms.len(), 2);
    assert_eq!(rooms[0].id, "!a:x");
    assert_eq!(rooms[0].name, "A");
    assert_eq!(rooms[0].topic, "T");
    assert_eq!(rooms[0].alias, "#a:x");
    assert_eq!(rooms[0].avatar, "mxc://x/a");
    assert_eq!(rooms[0].members, 12);
    assert!(rooms[0].world_readable && rooms[0].guest_can_join);
    assert_eq!(rooms[1].id, "");
    assert_eq!(rooms[1].members, 0);
    assert!(!rooms[1].world_readable && !rooms[1].guest_can_join);
    assert!(matches!(directory_rooms(&listing("{}")), Err(Error::MalformedResponse)));
    let r = listing("{\"chunk\":[{\"num_joined_members\":4294967297},{\"num_joined_members\":-1}]}");
    let rooms = match directory_rooms(&r) {
        Ok(rooms) => rooms,
        Err(e) => panic!("no rooms: {:?}", e),
    };
    assert_eq!(rooms[0].members, 1);
    assert_eq!(rooms[1].members, -1);
}

#[test]
fn new_room_is_open_and_empty() {
    let room = Room::new("!a:x".to_string(), "A".to_string());
    assert_eq!(room.id, "!a:x");
    assert_eq!(room.name, "A");
    assert_eq!(room.avatar, "");
    assert_eq!(room.topic, "");
    assert_eq!(room.alias, "");
    assert!(room.guest_can_join && room.world_readable);
    assert_eq!((room.members, room.notifications), (0, 0));
    let copy = room.clone();
    assert_eq!(copy.id, room.id);
}

#[test]
fn protocols_begin_with_the_home_server() {
    let r = listing(
        "{\"irc\":{\"instances\":[{\"instance_id\":\"irc-freenode\",\"desc\":\"Freenode\"},\
                                  {\"instance_id\":\"irc-oftc\",\"desc\":\"OFTC\"}]},\
          \"gitter\":{\"instances\":[{\"instance_id\":\"gitter\",\"desc\":\"Gitter\"}]}}",
    );
    let list = match protocol_list("https://matrix.org", &r) {
        Ok(list) => list,
        Err(e) => panic!("no protocols: {:?}", e),
    };
    let seen: Vec<(&str, &str)> = list.iter().map(|p| (p.id.as_str(), p.desc.as_str())).collect();
    assert_eq!(
        seen,
        vec![
            ("", "matrix.org"),
            ("gitter", "Gitter"),
            ("irc-freenode", "Freenode"),
            ("irc-oftc", "OFTC")
        ]
    );
    assert!(matches!(protocol_list("https://matrix.org", &listing("[]")), Err(Error::MalformedResponse)));
    assert!(matches!(
        protocol_list("https://matrix.org", &listing("{\"irc\":{}}")),
        Err(Error::MalformedResponse)
    ));
    assert!(matches!(
        protocol_list("https://matrix.org", &listing("{\"irc\":{\"instances\":[{\"desc\":\"x\"}]}}")),
        Err(Error::MalformedResponse)
    ));
}
