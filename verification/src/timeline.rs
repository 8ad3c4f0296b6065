//! Messages, decoded from the events of a timeline.

use vstd::prelude::*;
use crate::clock::{date_at, date_before};
use crate::error::Error;
use crate::json::{entry_views, json_views, Json, JsonV};
use crate::media::{dw_media, media_fetch, MediaFetch, MediaFetchV};
use crate::room::{has_type, joined_rooms, type_is};
use crate::text::str_eq;
use crate::types::{Message, MessageV};

verus! {

/// A decoded message, and the download of its thumbnail where it has one.
/// The message's `thumb` is empty until that download has been made.
#[derive(Debug)]
pub struct Parsed {
    pub msg: Message,
    pub thumb: Option<MediaFetch>,
}

/// The value of a [`Parsed`].
pub struct ParsedV {
    pub msg: MessageV,
    pub thumb: Option<MediaFetchV>,
}

impl View for Parsed {
    type V = ParsedV;

    open spec fn view(&self) -> ParsedV {
        ParsedV {
            msg: self.msg@,
            thumb: match self.thumb {
                Some(f) => Some(f@),
                None => None,
            },
        }
    }
}

/// The values of a list of decoded messages.
pub open spec fn parsed_views(list: Seq<Parsed>) -> Seq<ParsedV> {
    Seq::new(list.len(), |i: int| list[i]@)
}

/// The age that an event states, in milliseconds; 0 where it states none.
pub open spec fn age_of(ev: JsonV) -> i64 {
    match ev.member("age"@).integer() {
        Some(age) => age,
        None => 0,
    }
}

/// Whether a message event carries an image.
pub open spec fn is_image(ev: JsonV) -> bool {
    ev.member("content"@).member("msgtype"@).text_or(""@) == "m.image"@
}

/// The message that the event `ev` of the room `roomid` stands for, as
/// read at the moment `now`.  A field that the event lacks is empty.
/// Only an image has a URL, and a thumbnail to fetch where the event
/// names one that can be fetched from the server at `base`.
pub open spec fn parsed_of(base: Seq<char>, roomid: Seq<char>, ev: JsonV, now: i64) -> ParsedV {
    let content = ev.member("content"@);
    ParsedV {
        msg: MessageV {
            sender: ev.member("sender"@).text_or(""@),
            mtype: content.member("msgtype"@).text_or(""@),
            body: content.member("body"@).text_or(""@),
            date: date_before(now, age_of(ev)),
            room: roomid,
            thumb: Seq::empty(),
            url: if is_image(ev) {
                content.member("url"@).text_or(""@)
            } else {
                Seq::empty()
            },
            id: ev.member("event_id"@).text_or(""@),
        },
        thumb: if is_image(ev) {
            match media_fetch(
                base,
                content.member("info"@).member("thumbnail_url"@).text_or(""@),
                false,
                None,
                0,
                0,
            ) {
                Ok(f) => Some(f),
                Err(_) => None,
            }
        } else {
            None
        },
    }
}

/// Decodes one message event of the room `roomid`.
pub fn parse_room_message(baseu: &str, roomid: String, msg: &Json, now: i64) -> (parsed: Parsed)
    ensures
        parsed@ == parsed_of(baseu@, roomid@, msg@, now),
{
    let sender = msg.string_at("sender", "");
    let id = msg.string_at("event_id", "");
    let age = match msg.get("age") {
        Some(a) => match a.as_i64() {
            Some(age) => age,
            None => 0,
        },
        None => 0,
    };
    let mtype = msg.string_in("content", "msgtype", "");
    let body = msg.string_in("content", "body", "");
    let mut url = String::new();
    let mut thumb: Option<MediaFetch> = None;
    if str_eq(mtype.as_str(), "m.image") {
        url = msg.string_in("content", "url", "");
        let source = match msg.get("content") {
            Some(c) => c.string_in("info", "thumbnail_url", ""),
            None => "".to_owned(),
        };
        thumb = match dw_media(baseu, source.as_str(), false, None, 0, 0) {
            Ok(f) => Some(f),
            Err(_) => None,
        };
    }
    Parsed {
        msg: Message {
            sender,
            mtype,
            body,
            date: date_at(now, age),
            room: roomid,
            thumb: String::new(),
            url,
            id,
        },
        thumb,
    }
}

/// The messages among the first `upto` of `events`, in their order.
pub open spec fn messages_in(
    base: Seq<char>,
    roomid: Seq<char>,
    events: Seq<JsonV>,
    now: i64,
    upto: int,
) -> Seq<ParsedV>
    decreases upto,
{
    if upto <= 0 {
        Seq::empty()
    } else if has_type(events[upto - 1], "m.room.message"@) {
        messages_in(base, roomid, events, now, upto - 1).push(
            parsed_of(base, roomid, events[upto - 1], now),
        )
    } else {
        messages_in(base, roomid, events, now, upto - 1)
    }
}

/// Whether an answer holds a page: a list of events under `chunk`.
pub open spec fn is_page(r: JsonV) -> bool {
    r.member("chunk"@).items() is Some
}

/// The messages of one page of a room's history, oldest first.  The
/// server lists the events of a page newest first.  An answer that
/// holds no page is malformed.
pub open spec fn page_messages(base: Seq<char>, roomid: Seq<char>, r: JsonV, now: i64) -> Result<
    Seq<ParsedV>,
    Error,
> {
    if is_page(r) {
        let chunk = r.member("chunk"@).items()->0;
        Ok(messages_in(base, roomid, chunk.reverse(), now, chunk.len() as int))
    } else {
        Err(Error::MalformedResponse)
    }
}

/// Decodes one page of the history of the room `roomid` and puts its
/// messages in the order in which they were sent.
pub fn room_messages_page(baseu: &str, roomid: &str, r: &Json, now: i64) -> (page: Result<
    Vec<Parsed>,
    Error,
>)
    ensures
        match page {
            Ok(list) => page_messages(baseu@, roomid@, r@, now) == Ok::<Seq<ParsedV>, Error>(
                parsed_views(list@),
            ),
            Err(e) => page_messages(baseu@, roomid@, r@, now) == Err::<Seq<ParsedV>, Error>(e),
        },
{
    let chunk = match r.get("chunk") {
        Some(c) => match c.as_array() {
            Some(chunk) => chunk,
            None => {
                return Err(Error::MalformedResponse);
            },
        },
        None => {
            return Err(Error::MalformedResponse);
        },
    };
    let n = chunk.len();
    let ghost rev = json_views(chunk@).reverse();
    let mut list: Vec<Parsed> = Vec::new();
    let mut i: usize = n;
    while i > 0
        invariant
            n == chunk@.len(),
            i <= n,
            rev == json_views(chunk@).reverse(),
            parsed_views(list@) == messages_in(baseu@, roomid@, rev, now, n - i),
        decreases i,
    {
        i = i - 1;
        assert(rev[n - 1 - i] == chunk@[i as int]@);
        if type_is(&chunk[i], "m.room.message") {
            let parsed = parse_room_message(baseu, roomid.to_owned(), &chunk[i], now);
            let ghost before = parsed_views(list@);
            list.push(parsed);
            assert(parsed_views(list@) =~= before.push(parsed@));
        }
    }
    Ok(list)
}

/// The new messages of the first `upto` joined rooms of a sync, room by
/// room.  A room without a list of timeline events has none.
pub open spec fn timeline_upto(
    base: Seq<char>,
    rooms: Seq<(Seq<char>, JsonV)>,
    now: i64,
    upto: int,
) -> Seq<ParsedV>
    decreases upto,
{
    if upto <= 0 {
        Seq::empty()
    } else {
        let before = timeline_upto(base, rooms, now, upto - 1);
        match rooms[upto - 1].1.member("timeline"@).member("events"@).items() {
            Some(events) => before + messages_in(
                base,
                rooms[upto - 1].0,
                events,
                now,
                events.len() as int,
            ),
            None => before,
        }
    }
}

/// Whether a sync response holds its object of joined rooms.
pub open spec fn has_joined_rooms(r: JsonV) -> bool {
    r.member("rooms"@).member("join"@).entries() is Some
}

/// The new messages that a sync response brings; a response without an
/// object of joined rooms is malformed.
pub open spec fn sync_messages(base: Seq<char>, r: JsonV, now: i64) -> Result<
    Seq<ParsedV>,
    Error,
> {
    if has_joined_rooms(r) {
        let rooms = r.member("rooms"@).member("join"@).entries()->0;
        Ok(timeline_upto(base, rooms, now, rooms.len() as int))
    } else {
        Err(Error::MalformedResponse)
    }
}

/// Appends the messages among `events` to `list`.
fn push_messages(
    baseu: &str,
    roomid: &str,
    events: &Vec<Json>,
    now: i64,
    list: &mut Vec<Parsed>,
)
    ensures
        parsed_views(final(list)@) == parsed_views(old(list)@) + messages_in(
            baseu@,
            roomid@,
            json_views(events@),
            now,
            events@.len() as int,
        ),
{
    let ghost start = parsed_views(list@);
    let mut i: usize = 0;
    assert(parsed_views(list@) =~= start + Seq::<ParsedV>::empty());
    while i < events.len()
        invariant
            i <= events@.len(),
            parsed_views(list@) == start + messages_in(
                baseu@,
                roomid@,
                json_views(events@),
                now,
                i as int,
            ),
        decreases events@.len() - i,
    {
        if type_is(&events[i], "m.room.message") {
            let parsed = parse_room_message(baseu, roomid.to_owned(), &events[i], now);
            let ghost before = parsed_views(list@);
            list.push(parsed);
            assert(parsed_views(list@) =~= before.push(parsed@));
            assert(before.push(parsed@) =~= start + messages_in(
                baseu@,
                roomid@,
                json_views(events@),
                now,
                i as int,
            ).push(parsed@));
        }
        i = i + 1;
    }
}

/// Decodes the new messages of the joined rooms from a sync response.
pub fn get_rooms_timeline_from_json(baseu: &str, r: &Json, now: i64) -> (msgs: Result<
    Vec<Parsed>,
    Error,
>)
    ensures
        match msgs {
            Ok(list) => sync_messages(baseu@, r@, now) == Ok::<Seq<ParsedV>, Error>(
                parsed_views(list@),
            ),
            Err(e) => sync_messages(baseu@, r@, now) == Err::<Seq<ParsedV>, Error>(e),
        },
{
    let join = match joined_rooms(r) {
        Some(join) => join,
        None => {
            return Err(Error::MalformedResponse);
        },
    };
    let mut list: Vec<Parsed> = Vec::new();
    let mut i: usize = 0;
    while i < join.len()
        invariant
            i <= join@.len(),
            parsed_views(list@) == timeline_upto(baseu@, entry_views(join@), now, i as int),
        decreases join@.len() - i,
    {
        let ghost before = parsed_views(list@);
        let events = match join[i].1.get("timeline") {
            Some(t) => match t.get("events") {
                Some(e) => e.as_array(),
                None => None,
            },
            None => None,
        };
        match events {
            Some(events) => {
                push_messages(baseu, join[i].0.as_str(), events, now, &mut list);
            },
            None => {},
        }
        i = i + 1;
    }
    Ok(list)
}

/// A list of events that are all messages gives one message for each, in
/// the order of the events.
pub proof fn lemma_all_messages(
    base: Seq<char>,
    roomid: Seq<char>,
    events: Seq<JsonV>,
    now: i64,
    upto: int,
)
    requires
        0 <= upto <= events.len(),
        forall|i: int| 0 <= i < events.len() ==> has_type(#[trigger] events[i], "m.room.message"@),
    ensures
        messages_in(base, roomid, events, now, upto).len() == upto,
        forall|k: int|
            0 <= k < upto ==> #[trigger] messages_in(base, roomid, events, now, upto)[k]
                == parsed_of(base, roomid, events[k], now),
    decreases upto,
{
    if upto > 0 {
        lemma_all_messages(base, roomid, events, now, upto - 1);
    }
}

/// A page comes back in the order of time: where the server lists the
/// messages of a page newest first, the page holds them oldest first, the
/// message at `k` being the one that the server listed `k` before its
/// last.
pub proof fn lemma_page_is_reversed(base: Seq<char>, roomid: Seq<char>, r: JsonV, now: i64)
    requires
        r.member("chunk"@).items() is Some,
        forall|i: int|
            0 <= i < r.member("chunk"@).items()->0.len() ==> has_type(
                #[trigger] r.member("chunk"@).items()->0[i],
                "m.room.message"@,
            ),
    ensures
        page_messages(base, roomid, r, now) is Ok,
        ({
            let chunk = r.member("chunk"@).items()->0;
            let page = page_messages(base, roomid, r, now)->Ok_0;
            &&& page.len() == chunk.len()
            &&& forall|k: int|
                0 <= k < page.len() ==> #[trigger] page[k] == parsed_of(
                    base,
                    roomid,
                    chunk[chunk.len() - 1 - k],
                    now,
                )
        }),
{
    let chunk = r.member("chunk"@).items()->0;
    let rev = chunk.reverse();
    assert forall|i: int| 0 <= i < rev.len() implies has_type(
        #[trigger] rev[i],
        "m.room.message"@,
    ) by {
        assert(rev[i] == chunk[chunk.len() - 1 - i]);
    }
    lemma_all_messages(base, roomid, rev, now, rev.len() as int);
}

/// A page holds the messages of one room only: every message of a page
/// of the history of `roomid` is of that room.
pub proof fn lemma_page_is_of_one_room(
    base: Seq<char>,
    roomid: Seq<char>,
    events: Seq<JsonV>,
    now: i64,
    upto: int,
)
    requires
        0 <= upto <= events.len(),
    ensures
        messages_in(base, roomid, events, now, upto).len() <= upto,
        forall|k: int|
            0 <= k < messages_in(base, roomid, events, now, upto).len() ==> (
            #[trigger] messages_in(base, roomid, events, now, upto)[k]).msg.room == roomid,
    decreases upto,
{
    if upto > 0 {
        lemma_page_is_of_one_room(base, roomid, events, now, upto - 1);
    }
}

} // verus!
