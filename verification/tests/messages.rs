use guillotine::clock::{age_to_datetime, date_at};
use guillotine::error::Error;
use guillotine::history::History;
use guillotine::json::Json;
use guillotine::timeline::{get_rooms_timeline_from_json, parse_room_message, room_messages_page};
use guillotine::types::Message;

fn page_doc(text: &str) -> Json {
    match Json::parse(text) {
        Ok(doc) => doc,
        Err(e) => panic!("not JSON: {:?}", e),
    }
}

fn text_event(id: &str, body: &str, age: i64) -> String {
    format!(
        "{{\"type\":\"m.room.message\",\"event_id\":\"{}\",\"sender\":\"@a:x\",\"age\":{},\
          \"content\":{{\"msgtype\":\"m.text\",\"body\":\"{}\"}}}}",
        id, age, body
    )
}

#[test]
fn page_is_returned_oldest_first() {
    let r = page_doc(&format!(
        "{{\"start\":\"t3\",\"end\":\"t0\",\"chunk\":[{},{},{}]}}",
        text_event("$3", "newest", 1000),
        text_event("$2", "mid", 2000),
        text_event("$1", "oldest", 3000)
    ));
    let page = match room_messages_page("https://example.org/", "!r:x", &r, 1_000_000) {
        Ok(page) => page,
        Err(e) => panic!("no page: {:?}", e),
    };
    let bodies: Vec<&str> = page.iter().map(|p| p.msg.body.as_str()).collect();
    assert_eq!(bodies, vec!["oldest", "mid", "newest"]);
    let dates: Vec<i64> = page.iter().map(|p| p.msg.date).collect();
    assert_eq!(dates, vec![999_997, 999_998, 999_999]);
    for p in page.iter() {
        assert_eq!(p.msg.room, "!r:x");
        assert!(p.thumb.is_none());
    }
}

#[test]
fn events_that_are_no_messages_are_left_out() {
    let r = page_doc(&format!(
        "{{\"chunk\":[{},{{\"type\":\"m.room.member\",\"sender\":\"@a:x\"}},{}]}}",
        text_event("$2", "second", 0),
        text_event("$1", "first", 0)
    ));
    let page = match room_messages_page("https://example.org/", "!r:x", &r, 0) {
        Ok(page) => page,
        Err(e) => panic!("no page: {:?}", e),
    };
    let ids: Vec<&str> = page.iter().map(|p| p.msg.id.as_str()).collect();
    assert_eq!(ids, vec!["$1", "$2"]);
}

#[test]
fn page_without_chunk_is_malformed() {
    let r = page_doc("{\"start\":\"a\",\"end\":\"b\"}");
    assert!(matches!(
        room_messages_page("https://example.org/", "!r:x", &r, 0),
        Err(Error::MalformedResponse)
    ));
}

#[test]
fn message_fields_default_to_empty() {
    let p = parse_room_message("https://example.org/", "!r:x".to_string(), &page_doc("{}"), 42);
    assert_eq!(p.msg.sender, "");
    assert_eq!(p.msg.mtype, "");
    assert_eq!(p.msg.body, "");
    assert_eq!(p.msg.url, "");
    assert_eq!(p.msg.thumb, "");
    assert_eq!(p.msg.id, "");
    assert_eq!(p.msg.room, "!r:x");
    assert_eq!(p.msg.date, 42);
    assert!(p.thumb.is_none());
}

#[test]
fn image_message_has_url_and_thumbnail_to_fetch() {
    let ev = page_doc(
        "{\"type\":\"m.room.message\",\"sender\":\"@a:x\",\"age\":5999,\"content\":{\
           \"msgtype\":\"m.image\",\"body\":\"cat.png\",\"url\":\"mxc://s/full\",\
           \"info\":{\"thumbnail_url\":\"mxc://s/small\"}}}",
    );
    let p = parse_room_message("https://example.org/", "!r:x".to_string(), &ev, 100);
    assert_eq!(p.msg.mtype, "m.image");
    assert_eq!(p.msg.url, "mxc://s/full");
    assert_eq!(p.msg.date, 95);
    assert_eq!(p.msg.thumb, "");
    match p.thumb {
        Some(f) => assert_eq!(f.url, "https://example.org/_matrix/media/r0/download/s/small"),
        None => panic!("no thumbnail"),
    }
}

#[test]
fn image_without_thumbnail_has_nothing_to_fetch() {
    let ev = page_doc(
        "{\"type\":\"m.room.message\",\"content\":{\"msgtype\":\"m.image\",\"url\":\"mxc://s/full\"}}",
    );
    let p = parse_room_message("https://example.org/", "!r:x".to_string(), &ev, 0);
    assert_eq!(p.msg.url, "mxc://s/full");
    assert!(p.thumb.is_none());
    let ev = page_doc(
        "{\"type\":\"m.room.message\",\"content\":{\"msgtype\":\"m.text\",\"url\":\"mxc://s/full\"}}",
    );
    let p = parse_room_message("https://example.org/", "!r:x".to_string(), &ev, 0);
    assert_eq!(p.msg.url, "");
}

#[test]
fn date_counts_whole_seconds_back() {
    assert_eq!(date_at(1000, 0), 1000);
    assert_eq!(date_at(1000, 999), 1000);
    assert_eq!(date_at(1000, 1000), 999);
    assert_eq!(date_at(1000, 2500), 998);
    assert_eq!(date_at(1000, -2500), 1002);
    assert_eq!(date_at(i64::MIN, i64::MAX), i64::MIN);
    assert_eq!(date_at(i64::MAX, i64::MIN), i64::MAX);
    assert_eq!(date_at(0, i64::MIN), 9_223_372_036_854_775);
}

#[test]
fn age_is_counted_back_from_the_present() {
    let before = chrono::Utc::now().timestamp();
    let date = age_to_datetime(60_000);
    let after = chrono::Utc::now().timestamp();
    assert!(before - 60 <= date && date <= after - 60);
}

#[test]
fn sync_brings_messages_of_rooms_with_a_timeline() {
    let r = page_doc(&format!(
        "{{\"rooms\":{{\"join\":{{\
           \"!a:x\":{{\"timeline\":{{\"events\":[{},{}]}}}},\
           \"!b:x\":{{}},\
           \"!c:x\":{{\"timeline\":{{\"events\":[{}]}}}}}}}}}}",
        text_event("$1", "one", 0),
        text_event("$2", "two", 0),
        text_event("$3", "three", 0)
    ));
    let msgs = match get_rooms_timeline_from_json("https://example.org/", &r, 7) {
        Ok(msgs) => msgs,
        Err(e) => panic!("no messages: {:?}", e),
    };
    let seen: Vec<(&str, &str)> =
        msgs.iter().map(|p| (p.msg.room.as_str(), p.msg.body.as_str())).collect();
    assert_eq!(seen, vec![("!a:x", "one"), ("!a:x", "two"), ("!c:x", "three")]);
    assert!(matches!(
        get_rooms_timeline_from_json("https://example.org/", &page_doc("{}"), 7),
        Err(Error::MalformedResponse)
    ));
}

fn message_in(room: &str, body: &str) -> Message {
    Message {
        sender: "@a:x".to_string(),
        mtype: "m.text".to_string(),
        body: body.to_string(),
        date: 0,
        room: room.to_string(),
        thumb: String::new(),
        url: String::new(),
        id: String::new(),
    }
}

#[test]
fn older_page_is_put_before_the_history_in_order() {
    let mut history = History::new("!r:x".to_string());
    history.extend(&vec![message_in("!r:x", "four"), message_in("!o:x", "other"), message_in("!r:x", "five")]);
    let bodies: Vec<&str> = history.msgs.iter().map(|m| m.body.as_str()).collect();
    assert_eq!(bodies, vec!["four", "five"]);
    history.prepend(&vec![
        message_in("!r:x", "one"),
        message_in("!r:x", "two"),
        message_in("!o:x", "other"),
        message_in("!r:x", "three"),
    ]);
    let bodies: Vec<&str> = history.msgs.iter().map(|m| m.body.as_str()).collect();
    assert_eq!(bodies, vec!["one", "two", "three", "four", "five"]);
    history.prepend(&Vec::new());
    history.extend(&Vec::new());
    assert_eq!(history.msgs.len(), 5);
    assert_eq!(history.room, "!r:x");
}
