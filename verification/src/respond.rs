//! What the engine makes of the answers to its requests.

use vstd::prelude::*;
use crate::backend::{Backend, BackendDataV, State};
use crate::command::{BKResponse, BKResponseV};
use crate::error::Error;
use crate::icon::{draw_identicon, identicon_of, Identicon, IdenticonV};
use crate::json::{Json, JsonV};
use crate::media::{dw_media, media_fetch};
use crate::protocol::{
    action_views, Action, ActionV, Outcome, PageKind, PictureUse, Task, TaskV,
};
use crate::timeline::{parsed_views, Parsed, ParsedV};
use crate::types::{message_views, Message, MessageV};
use crate::avatar::{get_room_avatar, room_avatar, AvatarPlan, AvatarPlanV};
use crate::directory::{directory_rooms, protocol_list, protocols_of, rooms_listed};
use crate::request::{get_room_st, room_state_step};
use crate::room::{get_rooms_from_json, room_members, rooms_of, roster_of};
use crate::text::{chars_of, last_segment, segment_after, string_of};
use crate::timeline::{
    get_rooms_timeline_from_json, has_joined_rooms, is_page, page_messages, room_messages_page,
    sync_messages,
};

verus! {

/// The document of an answer that may be an error.
pub open spec fn answer_view(answer: Result<Json, Error>) -> Result<JsonV, Error> {
    match answer {
        Ok(doc) => Ok(doc@),
        Err(e) => Err(e),
    }
}

/// The user id and the access token that the answer to a login or a
/// registration brings; an answer that lacks one of them is malformed.
pub open spec fn token_of(answer: Result<JsonV, Error>) -> Result<(Seq<char>, Seq<char>), Error> {
    match answer {
        Err(e) => Err(e),
        Ok(r) => match (r.member("user_id"@).text(), r.member("access_token"@).text()) {
            (Some(uid), Some(token)) => Ok((uid, token)),
            _ => Err(Error::MalformedResponse),
        },
    }
}

/// The session of the user `uid` with the token `token`, all cursors
/// empty.
pub open spec fn fresh_session(data: BackendDataV, uid: Seq<char>, token: Seq<char>) -> BackendDataV {
    BackendDataV {
        user_id: uid,
        access_token: token,
        since: Seq::empty(),
        msgs_batch_start: Seq::empty(),
        msgs_batch_end: Seq::empty(),
        rooms_since: Seq::empty(),
        ..data
    }
}

/// The session after the answer to a login or a registration.
pub open spec fn token_data(data: BackendDataV, answer: Result<JsonV, Error>) -> BackendDataV {
    match token_of(answer) {
        Ok((uid, token)) => fresh_session(data, uid, token),
        Err(_) => data,
    }
}

/// The state after the answer to a login or a registration:
/// `Authenticated` with a token, `Anonymous` without; an engine that is
/// shutting down stays so.
pub open spec fn token_state(state: State, answer: Result<JsonV, Error>) -> State {
    if state == State::ShuttingDown {
        State::ShuttingDown
    } else if token_of(answer) is Ok {
        State::Authenticated { syncing: false }
    } else {
        State::Anonymous
    }
}

/// The response to a login or a registration.
pub open spec fn token_response(guest: bool, answer: Result<JsonV, Error>) -> BKResponseV {
    match token_of(answer) {
        Ok((uid, token)) => BKResponseV::Token(uid, token),
        Err(e) => if guest {
            BKResponseV::GuestLoginError(e)
        } else {
            BKResponseV::LoginError(e)
        },
    }
}

/// The response that names the user `uid`: the display name of the
/// answer, or the user id where the answer gives none.
pub open spec fn username_response(uid: Seq<char>, answer: Result<JsonV, Error>) -> BKResponseV {
    match answer {
        Ok(r) => BKResponseV::Name(r.member("displayname"@).text_or(uid)),
        Err(e) => BKResponseV::UserNameError(e),
    }
}

/// How a picture, or the failure to get one, is handed over.  Only the
/// avatar of the session's user has an error of its own; the others get
/// an empty path.
pub open spec fn picture_result(then: PictureUse, result: Result<Seq<char>, Error>) -> ActionV {
    match then {
        PictureUse::Avatar => match result {
            Ok(path) => ActionV::Respond(BKResponseV::Avatar(path)),
            Err(e) => ActionV::Respond(BKResponseV::AvatarError(e)),
        },
        PictureUse::RoomAvatar => match result {
            Ok(path) => ActionV::Respond(BKResponseV::RoomAvatar(path)),
            Err(_) => ActionV::Respond(BKResponseV::RoomAvatar(Seq::empty())),
        },
        PictureUse::Reply(channel) => match result {
            Ok(path) => ActionV::Reply(channel, path),
            Err(_) => ActionV::Reply(channel, Seq::empty()),
        },
    }
}

/// The second character of a text, as a text; empty where there is none.
pub open spec fn second_char(s: Seq<char>) -> Seq<char> {
    if s.len() >= 2 {
        s.subrange(1, 2)
    } else {
        Seq::empty()
    }
}

/// The drawing of an identicon as a picture for `then`.
pub open spec fn draw_step(icon: IdenticonV, then: PictureUse) -> ActionV {
    ActionV::Draw { icon, task: TaskV::Picture { then, fallback: None } }
}

/// What follows the answer to a request for the profile of `uid`: the
/// thumbnail of the avatar that the profile names; without an avatar,
/// the identicon of the user id with the display name, or `@`, as its
/// label; without an answer, the identicon with the second character of
/// the user id as its label.
pub open spec fn profile_action(
    base: Seq<char>,
    uid: Seq<char>,
    then: PictureUse,
    answer: Result<JsonV, Error>,
) -> ActionV {
    match answer {
        Ok(r) => match r.member("avatar_url"@).text() {
            Some(url) => match media_fetch(base, url, true, None, 64, 64) {
                Ok(fetch) => ActionV::Media {
                    fetch,
                    task: TaskV::Picture { then, fallback: None },
                },
                Err(e) => picture_result(then, Err(e)),
            },
            None => draw_step(identicon_of(uid, r.member("displayname"@).text_or("@"@)), then),
        },
        Err(_) => draw_step(identicon_of(uid, second_char(uid)), then),
    }
}

/// What follows the outcome of a download or of a drawing: the path is
/// handed over; after a failure the fallback is drawn, and without a
/// fallback the failure is handed over.
pub open spec fn picture_action(
    then: PictureUse,
    fallback: Option<IdenticonV>,
    outcome: Outcome,
) -> ActionV {
    match outcome {
        Outcome::File(path) => picture_result(then, Ok(path@)),
        other => match fallback {
            Some(icon) => draw_step(icon, then),
            None => picture_result(
                then,
                Err(
                    match other {
                        Outcome::Failed(e) => e,
                        _ => Error::BackendError,
                    },
                ),
            ),
        },
    }
}

/// Hands a picture over, or the failure to get one.
pub fn finish_picture(then: PictureUse, result: Result<String, Error>) -> (action: Action)
    ensures
        action@ == picture_result(
            then,
            match result {
                Ok(path) => Ok(path@),
                Err(e) => Err(e),
            },
        ),
{
    match then {
        PictureUse::Avatar => match result {
            Ok(path) => Action::Respond(BKResponse::Avatar(path)),
            Err(e) => Action::Respond(BKResponse::AvatarError(e)),
        },
        PictureUse::RoomAvatar => match result {
            Ok(path) => Action::Respond(BKResponse::RoomAvatar(path)),
            Err(_) => Action::Respond(BKResponse::RoomAvatar(String::new())),
        },
        PictureUse::Reply(channel) => match result {
            Ok(path) => Action::Reply(channel, path),
            Err(_) => Action::Reply(channel, String::new()),
        },
    }
}

/// The response to the answer about the display name of `uid`.
pub fn username_done(uid: String, answer: Result<Json, Error>) -> (response: BKResponse)
    ensures
        response@ == username_response(uid@, answer_view(answer)),
{
    match answer {
        Ok(r) => BKResponse::Name(r.string_at("displayname", uid.as_str())),
        Err(e) => BKResponse::UserNameError(e),
    }
}

/// What follows the answer to a request for the profile of `uid`.
pub fn profile_done(base: &str, uid: &str, then: PictureUse, answer: Result<Json, Error>) -> (action:
    Action)
    ensures
        action@ == profile_action(base@, uid@, then, answer_view(answer)),
{
    match answer {
        Ok(r) => match r.str_at("avatar_url") {
            Some(url) => match dw_media(base, url, true, None, 64, 64) {
                Ok(fetch) => Action::Media {
                    fetch,
                    task: Task::Picture { then, fallback: None },
                },
                Err(e) => finish_picture(then, Err(e)),
            },
            None => {
                let label = r.string_at("displayname", "@");
                Action::Draw {
                    icon: draw_identicon(uid, label.as_str()),
                    task: Task::Picture { then, fallback: None },
                }
            },
        },
        Err(_) => {
            let chars = chars_of(uid);
            let label = if chars.len() >= 2 {
                string_of(&chars, 1, 2)
            } else {
                String::new()
            };
            Action::Draw {
                icon: draw_identicon(uid, label.as_str()),
                task: Task::Picture { then, fallback: None },
            }
        },
    }
}

/// What follows the outcome of a download or of a drawing.
pub fn picture_done(then: PictureUse, fallback: Option<Identicon>, outcome: Outcome) -> (action:
    Action)
    ensures
        action@ == picture_action(
            then,
            match fallback {
                Some(icon) => Some(icon@),
                None => None,
            },
            outcome,
        ),
{
    match outcome {
        Outcome::File(path) => finish_picture(then, Ok(path)),
        other => match fallback {
            Some(icon) => Action::Draw { icon, task: Task::Picture { then, fallback: None } },
            None => {
                let e = match other {
                    Outcome::Failed(e) => e,
                    _ => Error::BackendError,
                };
                finish_picture(then, Err(e))
            },
        },
    }
}

impl Backend {
    /// Takes the answer to a login or a registration.  An answer with a
    /// user id and a token begins the session with empty cursors and is
    /// handed over as the token; any other is handed over as an error
    /// and leaves the session as it was.
    pub fn token_done(&mut self, guest: bool, answer: Result<Json, Error>) -> (response:
        BKResponse)
        ensures
            response@ == token_response(guest, answer_view(answer)),
            final(self).data@ == token_data(old(self).data@, answer_view(answer)),
            final(self).state == token_state(old(self).state, answer_view(answer)),
    {
        let read = match answer {
            Ok(r) => match (r.str_at("user_id"), r.str_at("access_token")) {
                (Some(uid), Some(token)) => Ok((uid.to_owned(), token.to_owned())),
                _ => Err(Error::MalformedResponse),
            },
            Err(e) => Err(e),
        };
        match read {
            Ok((uid, token)) => {
                self.data.user_id = uid.clone();
                self.data.access_token = token.clone();
                self.data.since = String::new();
                self.data.msgs_batch_start = String::new();
                self.data.msgs_batch_end = String::new();
                self.data.rooms_since = String::new();
                if self.state != State::ShuttingDown {
                    self.state = State::Authenticated { syncing: false };
                }
                BKResponse::Token(uid, token)
            },
            Err(e) => {
                if self.state != State::ShuttingDown {
                    self.state = State::Anonymous;
                }
                if guest {
                    BKResponse::GuestLoginError(e)
                } else {
                    BKResponse::LoginError(e)
                }
            },
        }
    }
}

/// The messages of a page.
pub open spec fn page_msgs(page: Seq<ParsedV>) -> Seq<MessageV> {
    Seq::new(page.len(), |i: int| page[i].msg)
}

/// The position of the first message from `from` on whose thumbnail is
/// still to be fetched, or the length of the page where there is none.
pub open spec fn next_thumb(page: Seq<ParsedV>, from: int) -> int
    decreases page.len() - from,
{
    if from < 0 || from >= page.len() {
        page.len() as int
    } else if page[from].thumb is Some {
        from
    } else {
        next_thumb(page, from + 1)
    }
}

/// How a finished page is handed over.  The messages of a sync are
/// followed by the notice that the sync is done.
pub open spec fn finish_page(page: Seq<ParsedV>, kind: PageKind) -> Seq<ActionV> {
    match kind {
        PageKind::Messages => seq![ActionV::Respond(BKResponseV::RoomMessages(page_msgs(page)))],
        PageKind::MessagesTo => seq![
            ActionV::Respond(BKResponseV::RoomMessagesTo(page_msgs(page))),
        ],
        PageKind::Sync => seq![
            ActionV::Respond(BKResponseV::RoomMessages(page_msgs(page))),
            ActionV::Respond(BKResponseV::Sync),
        ],
    }
}

/// What is to be done with a page whose thumbnails before `from` are
/// settled: fetch the next thumbnail, or hand the page over.
pub open spec fn page_actions(page: Seq<ParsedV>, from: int, kind: PageKind) -> Seq<ActionV> {
    let at = next_thumb(page, from);
    if at < page.len() {
        seq![
            ActionV::Media {
                fetch: page[at].thumb->0,
                task: TaskV::Thumbs { page, at: at as usize, kind },
            },
        ]
    } else {
        finish_page(page, kind)
    }
}

/// The page after the thumbnail of the message at `at` has been settled
/// with the file at `path`.
pub open spec fn with_thumb(page: Seq<ParsedV>, at: int, path: Seq<char>) -> Seq<ParsedV> {
    page.update(at, ParsedV { msg: MessageV { thumb: path, ..page[at].msg }, thumb: None })
}

/// The path that the outcome of a download brings; empty after a
/// failure.
pub open spec fn thumb_path(outcome: Outcome) -> Seq<char> {
    match outcome {
        Outcome::File(path) => path@,
        _ => Seq::empty(),
    }
}

/// What follows the outcome of the download of the thumbnail of the
/// message at `at`: the message gets the path, and the page goes on
/// with the messages after it.
pub open spec fn thumbs_actions(page: Seq<ParsedV>, at: usize, kind: PageKind, outcome: Outcome) -> Seq<
    ActionV,
> {
    if at < page.len() {
        page_actions(with_thumb(page, at as int, thumb_path(outcome)), at + 1, kind)
    } else {
        finish_page(page, kind)
    }
}

fn messages_of(page: &Vec<Parsed>) -> (msgs: Vec<Message>)
    ensures
        message_views(msgs@) == page_msgs(parsed_views(page@)),
{
    let mut msgs: Vec<Message> = Vec::new();
    let mut i: usize = 0;
    while i < page.len()
        invariant
            i <= page@.len(),
            msgs@.len() == i,
            forall|k: int| 0 <= k < i ==> (#[trigger] msgs@[k])@ == page@[k].msg@,
        decreases page@.len() - i,
    {
        msgs.push(page[i].msg.clone());
        i = i + 1;
    }
    assert(message_views(msgs@) =~= page_msgs(parsed_views(page@)));
    msgs
}

fn hand_over(page: &Vec<Parsed>, kind: PageKind) -> (actions: Vec<Action>)
    ensures
        action_views(actions@) == finish_page(parsed_views(page@), kind),
{
    let mut actions: Vec<Action> = Vec::new();
    let msgs = messages_of(page);
    match kind {
        PageKind::Messages => {
            actions.push(Action::Respond(BKResponse::RoomMessages(msgs)));
        },
        PageKind::MessagesTo => {
            actions.push(Action::Respond(BKResponse::RoomMessagesTo(msgs)));
        },
        PageKind::Sync => {
            actions.push(Action::Respond(BKResponse::RoomMessages(msgs)));
            actions.push(Action::Respond(BKResponse::Sync));
        },
    }
    assert(action_views(actions@) =~= finish_page(parsed_views(page@), kind));
    actions
}

/// Goes on with a page whose thumbnails before `from` are settled.
pub fn page_step(page: Vec<Parsed>, from: usize, kind: PageKind) -> (actions: Vec<Action>)
    ensures
        action_views(actions@) == page_actions(parsed_views(page@), from as int, kind),
{
    let mut at: usize = from;
    while at < page.len()
        invariant
            next_thumb(parsed_views(page@), from as int) == next_thumb(
                parsed_views(page@),
                at as int,
            ),
        decreases page@.len() - at,
    {
        let found = match &page[at].thumb {
            Some(f) => Some(f.clone()),
            None => None,
        };
        if let Some(fetch) = found {
            let mut actions: Vec<Action> = Vec::new();
            let ghost pv = parsed_views(page@);
            assert(pv[at as int].thumb == Some(fetch@));
            actions.push(Action::Media { fetch, task: Task::Thumbs { page, at, kind } });
            assert(action_views(actions@) =~= page_actions(pv, from as int, kind));
            return actions;
        }
        at = at + 1;
    }
    hand_over(&page, kind)
}

/// Settles the thumbnail of the message at `at` with the outcome of its
/// download, and goes on with the page.
pub fn thumbs_done(page: Vec<Parsed>, at: usize, kind: PageKind, outcome: Outcome) -> (actions:
    Vec<Action>)
    ensures
        action_views(actions@) == thumbs_actions(parsed_views(page@), at, kind, outcome),
{
    let mut page = page;
    if at >= page.len() {
        return hand_over(&page, kind);
    }
    let path = match outcome {
        Outcome::File(path) => path,
        _ => String::new(),
    };
    let ghost before = parsed_views(page@);
    let old = page[at].msg.clone();
    let msg = Message {
        sender: old.sender,
        mtype: old.mtype,
        body: old.body,
        date: old.date,
        room: old.room,
        thumb: path,
        url: old.url,
        id: old.id,
    };
    page.set(at, Parsed { msg, thumb: None });
    assert(parsed_views(page@) =~= with_thumb(before, at as int, thumb_path(outcome)));
    page_step(page, at + 1, kind)
}

/// The kind of page that a request for messages brings.
pub open spec fn kind_of(to: bool) -> PageKind {
    if to {
        PageKind::MessagesTo
    } else {
        PageKind::Messages
    }
}

/// Whether an answer brings a page of messages.
pub open spec fn brings_page(answer: Result<JsonV, Error>) -> bool {
    match answer {
        Ok(r) => is_page(r),
        Err(_) => false,
    }
}

/// The session after the answer to a request for messages: where the
/// answer brings a page, the cursors of the history are those of the
/// answer, empty where it names none; any other answer leaves the
/// session as it was.
pub open spec fn messages_data(data: BackendDataV, answer: Result<JsonV, Error>) -> BackendDataV {
    if brings_page(answer) {
        BackendDataV {
            msgs_batch_start: answer->Ok_0.member("start"@).text_or(""@),
            msgs_batch_end: answer->Ok_0.member("end"@).text_or(""@),
            ..data
        }
    } else {
        data
    }
}

/// What follows the answer to a request for a page of messages of
/// `roomid`: the page, oldest message first, once its thumbnails are
/// settled; or the error.
pub open spec fn messages_actions(
    roomid: Seq<char>,
    to: bool,
    base: Seq<char>,
    answer: Result<JsonV, Error>,
    now: i64,
) -> Seq<ActionV> {
    match answer {
        Ok(r) => match page_messages(base, roomid, r, now) {
            Ok(page) => page_actions(page, 0, kind_of(to)),
            Err(e) => seq![ActionV::Respond(BKResponseV::RoomMessagesError(e))],
        },
        Err(e) => seq![ActionV::Respond(BKResponseV::RoomMessagesError(e))],
    }
}

/// Whether the answer to a sync moves the cursor: it does where what
/// the sync is for can be read from it, the rooms with their names for
/// the first sync of a session, the joined rooms for a later one.
pub open spec fn sync_advances(initial: bool, userid: Seq<char>, answer: Result<JsonV, Error>) -> bool {
    match answer {
        Ok(r) => if initial {
            rooms_of(r, userid) is Ok
        } else {
            has_joined_rooms(r)
        },
        Err(_) => false,
    }
}

/// The session after the answer to a sync.
pub open spec fn sync_data(
    data: BackendDataV,
    initial: bool,
    userid: Seq<char>,
    answer: Result<JsonV, Error>,
) -> BackendDataV {
    if sync_advances(initial, userid, answer) {
        BackendDataV { since: answer->Ok_0.member("next_batch"@).text_or(""@), ..data }
    } else {
        data
    }
}

/// The state once a sync has ended.
pub open spec fn synced(state: State) -> State {
    match state {
        State::Authenticated { syncing } => State::Authenticated { syncing: false },
        other => other,
    }
}

/// What follows the answer to a sync: after the first sync of a
/// session, the rooms with their names; after a later one, the new
/// messages; in both cases the notice that the sync is done.  An answer
/// that is an error, and one from which the rooms cannot be read, is one
/// error of the sync, without that notice.
pub open spec fn sync_actions(
    initial: bool,
    base: Seq<char>,
    userid: Seq<char>,
    answer: Result<JsonV, Error>,
    now: i64,
) -> Seq<ActionV> {
    match answer {
        Err(e) => seq![ActionV::Respond(BKResponseV::SyncError(e))],
        Ok(r) => if initial {
            match rooms_of(r, userid) {
                Ok(rooms) => seq![
                    ActionV::Respond(BKResponseV::Rooms(rooms)),
                    ActionV::Respond(BKResponseV::Sync),
                ],
                Err(e) => seq![ActionV::Respond(BKResponseV::SyncError(e))],
            }
        } else {
            match sync_messages(base, r, now) {
                Ok(page) => page_actions(page, 0, PageKind::Sync),
                Err(e) => seq![ActionV::Respond(BKResponseV::SyncError(e))],
            }
        },
    }
}

/// The list of one action.
pub fn one(action: Action) -> (actions: Vec<Action>)
    ensures
        action_views(actions@) == seq![action@],
{
    let mut actions: Vec<Action> = Vec::new();
    actions.push(action);
    assert(action_views(actions@) =~= seq![action@]);
    actions
}

/// The list of two actions.
pub fn two(first: Action, second: Action) -> (actions: Vec<Action>)
    ensures
        action_views(actions@) == seq![first@, second@],
{
    let mut actions: Vec<Action> = Vec::new();
    actions.push(first);
    actions.push(second);
    assert(action_views(actions@) =~= seq![first@, second@]);
    actions
}

impl Backend {
    /// Takes the answer to a request for a page of messages of `roomid`
    /// from the server at `base`: where it brings a page, keeps the
    /// cursors of the answer and goes on with the page; where it brings
    /// none, hands over the error and changes nothing.
    pub fn room_messages_done(
        &mut self,
        roomid: &str,
        to: bool,
        base: &str,
        answer: Result<Json, Error>,
        now: i64,
    ) -> (actions: Vec<Action>)
        ensures
            final(self).state == old(self).state,
            final(self).data@ == messages_data(old(self).data@, answer_view(answer)),
            action_views(actions@) == messages_actions(
                roomid@,
                to,
                base@,
                answer_view(answer),
                now,
            ),
    {
        let r = match answer {
            Ok(r) => r,
            Err(e) => {
                return one(Action::Respond(BKResponse::RoomMessagesError(e)));
            },
        };
        let kind = if to {
            PageKind::MessagesTo
        } else {
            PageKind::Messages
        };
        match room_messages_page(base, roomid, &r, now) {
            Ok(page) => {
                self.data.msgs_batch_start = r.string_at("start", "");
                self.data.msgs_batch_end = r.string_at("end", "");
                page_step(page, 0, kind)
            },
            Err(e) => one(Action::Respond(BKResponse::RoomMessagesError(e))),
        }
    }

    /// Takes the answer to a sync of the user `userid` on the server at
    /// `base`: where the answer can be read, moves the cursor on and
    /// hands over what the answer brings; where it cannot, hands over the
    /// error of the sync and leaves the cursor where it was.
    pub fn sync_done(
        &mut self,
        initial: bool,
        base: &str,
        userid: &str,
        answer: Result<Json, Error>,
        now: i64,
    ) -> (actions: Vec<Action>)
        ensures
            final(self).state == synced(old(self).state),
            final(self).data@ == sync_data(old(self).data@, initial, userid@, answer_view(answer)),
            action_views(actions@) == sync_actions(
                initial,
                base@,
                userid@,
                answer_view(answer),
                now,
            ),
    {
        match self.state {
            State::Authenticated { syncing } => {
                self.state = State::Authenticated { syncing: false };
            },
            _ => {},
        }
        let r = match answer {
            Ok(r) => r,
            Err(e) => {
                return one(Action::Respond(BKResponse::SyncError(e)));
            },
        };
        let next = r.string_at("next_batch", "");
        if initial {
            match get_rooms_from_json(&r, userid) {
                Ok(rooms) => {
                    self.data.since = next;
                    two(
                        Action::Respond(BKResponse::Rooms(rooms)),
                        Action::Respond(BKResponse::Sync),
                    )
                },
                Err(e) => one(Action::Respond(BKResponse::SyncError(e))),
            }
        } else {
            match get_rooms_timeline_from_json(base, &r, now) {
                Ok(page) => {
                    self.data.since = next;
                    page_step(page, 0, PageKind::Sync)
                },
                Err(e) => one(Action::Respond(BKResponse::SyncError(e))),
            }
        }
    }
}

/// The response to the answer about the value under `key` of a room's
/// state: the string that the answer holds under the last part of the
/// key, as `.` divides it; empty where it holds none.
pub open spec fn room_detail_response(key: Seq<char>, answer: Result<JsonV, Error>) -> BKResponseV {
    match answer {
        Ok(r) => BKResponseV::RoomDetail(
            key,
            r.member(last_segment(key, '.')).text_or(Seq::empty()),
        ),
        Err(e) => BKResponseV::RoomDetailError(e),
    }
}

/// Whether the answer about a room's avatar event says that the room
/// has none: an answer without a URL, and the answer that nothing was
/// found.
pub open spec fn lacks_avatar(answer: Result<JsonV, Error>) -> bool {
    match answer {
        Ok(r) => r.member("url"@).text() is None,
        Err(e) => e == Error::NotFound,
    }
}

/// What follows the answer about the avatar event of `roomid`: the
/// thumbnail of the avatar that the event names, 64 by 64; for a room
/// without one, the request for the room's state, from which a picture
/// is made up.  Where the thumbnail or that request cannot be planned
/// the room has an empty picture.
pub open spec fn room_avatar_action(
    roomid: Seq<char>,
    base: Seq<char>,
    token: Seq<char>,
    userid: Seq<char>,
    answer: Result<JsonV, Error>,
) -> ActionV {
    if lacks_avatar(answer) {
        match room_state_step(base, token, userid, roomid) {
            Ok(request) => request,
            Err(_) => ActionV::Respond(BKResponseV::RoomAvatar(Seq::empty())),
        }
    } else {
        match answer {
            Ok(r) => match media_fetch(base, r.member("url"@).text()->0, true, None, 64, 64) {
                Ok(fetch) => ActionV::Media {
                    fetch,
                    task: TaskV::Picture { then: PictureUse::RoomAvatar, fallback: None },
                },
                Err(_) => ActionV::Respond(BKResponseV::RoomAvatar(Seq::empty())),
            },
            Err(e) => ActionV::Respond(BKResponseV::RoomAvatarError(e)),
        }
    }
}

/// What follows the answer about the state of `roomid`: the picture
/// that the state calls for, or an empty picture where the state cannot
/// be read.
pub open spec fn room_state_action(
    roomid: Seq<char>,
    base: Seq<char>,
    userid: Seq<char>,
    answer: Result<JsonV, Error>,
) -> ActionV {
    match answer {
        Ok(st) => match room_avatar(base, st, userid, roomid) {
            Ok(AvatarPlanV::Thumb { fetch, fallback }) => ActionV::Media {
                fetch,
                task: TaskV::Picture { then: PictureUse::RoomAvatar, fallback: Some(fallback) },
            },
            Ok(AvatarPlanV::Icon(icon)) => draw_step(icon, PictureUse::RoomAvatar),
            Err(_) => ActionV::Respond(BKResponseV::RoomAvatar(Seq::empty())),
        },
        Err(_) => ActionV::Respond(BKResponseV::RoomAvatar(Seq::empty())),
    }
}

/// The response to the answer about the members of a room.
pub open spec fn members_response(answer: Result<JsonV, Error>) -> BKResponseV {
    match answer {
        Ok(r) => match roster_of(r) {
            Ok(members) => BKResponseV::RoomMembers(members),
            Err(e) => BKResponseV::RoomMembersError(e),
        },
        Err(e) => BKResponseV::RoomMembersError(e),
    }
}

/// The response to the answer to a message sent.
pub open spec fn send_response(answer: Result<JsonV, Error>) -> BKResponseV {
    match answer {
        Ok(_) => BKResponseV::SendMsg,
        Err(e) => BKResponseV::SendMsgError(e),
    }
}

/// The response to the answer about the protocols of the directory of
/// the server at the URL `server`.
pub open spec fn protocols_response(server: Seq<char>, answer: Result<JsonV, Error>) -> BKResponseV {
    match answer {
        Ok(r) => match protocols_of(server, r) {
            Ok(list) => BKResponseV::DirectoryProtocols(list),
            Err(e) => BKResponseV::DirectoryError(e),
        },
        Err(e) => BKResponseV::DirectoryError(e),
    }
}

/// The session after the answer to a directory search: where the
/// answer lists rooms, the cursor of the directory is that of the
/// answer, empty where it names none; any other answer leaves the
/// session as it was.
pub open spec fn search_data(data: BackendDataV, answer: Result<JsonV, Error>) -> BackendDataV {
    match answer {
        Ok(r) => if rooms_listed(r) is Ok {
            BackendDataV { rooms_since: r.member("next_batch"@).text_or(""@), ..data }
        } else {
            data
        },
        Err(_) => data,
    }
}

/// The response to the answer to a directory search.
pub open spec fn search_response(answer: Result<JsonV, Error>) -> BKResponseV {
    match answer {
        Ok(r) => match rooms_listed(r) {
            Ok(rooms) => BKResponseV::DirectorySearch(rooms),
            Err(e) => BKResponseV::DirectoryError(e),
        },
        Err(e) => BKResponseV::DirectoryError(e),
    }
}

/// The response to the answer about the value under `key` of a room's
/// state.
pub fn room_detail_done(key: String, answer: Result<Json, Error>) -> (response: BKResponse)
    ensures
        response@ == room_detail_response(key@, answer_view(answer)),
{
    match answer {
        Ok(r) => {
            let field = segment_after(key.as_str(), '.');
            let value = match r.str_at(field.as_str()) {
                Some(v) => v.to_owned(),
                None => String::new(),
            };
            BKResponse::RoomDetail(key, value)
        },
        Err(e) => BKResponse::RoomDetailError(e),
    }
}

/// What follows the answer about the avatar event of `roomid`.
pub fn room_avatar_done(
    roomid: &str,
    base: &str,
    token: &str,
    userid: &str,
    answer: Result<Json, Error>,
) -> (action: Action)
    ensures
        action@ == room_avatar_action(roomid@, base@, token@, userid@, answer_view(answer)),
{
    let named = match &answer {
        Ok(r) => match r.str_at("url") {
            Some(url) => Some(Ok(url.to_owned())),
            None => None,
        },
        Err(e) => match e {
            Error::NotFound => None,
            _ => Some(Err(*e)),
        },
    };
    match named {
        None => match get_room_st(base, token, userid, roomid) {
            Ok(request) => request,
            Err(_) => Action::Respond(BKResponse::RoomAvatar(String::new())),
        },
        Some(Ok(url)) => match dw_media(base, url.as_str(), true, None, 64, 64) {
            Ok(fetch) => Action::Media {
                fetch,
                task: Task::Picture { then: PictureUse::RoomAvatar, fallback: None },
            },
            Err(_) => Action::Respond(BKResponse::RoomAvatar(String::new())),
        },
        Some(Err(e)) => Action::Respond(BKResponse::RoomAvatarError(e)),
    }
}

/// What follows the answer about the state of `roomid`.
pub fn room_state_done(roomid: &str, base: &str, userid: &str, answer: Result<Json, Error>) -> (action:
    Action)
    ensures
        action@ == room_state_action(roomid@, base@, userid@, answer_view(answer)),
{
    let plan = match answer {
        Ok(st) => get_room_avatar(base, &st, userid, roomid),
        Err(e) => Err(e),
    };
    match plan {
        Ok(AvatarPlan::Thumb { fetch, fallback }) => Action::Media {
            fetch,
            task: Task::Picture { then: PictureUse::RoomAvatar, fallback: Some(fallback) },
        },
        Ok(AvatarPlan::Icon(icon)) => Action::Draw {
            icon,
            task: Task::Picture { then: PictureUse::RoomAvatar, fallback: None },
        },
        Err(_) => Action::Respond(BKResponse::RoomAvatar(String::new())),
    }
}

/// The response to the answer about the members of a room.
pub fn room_members_done(answer: Result<Json, Error>) -> (response: BKResponse)
    ensures
        response@ == members_response(answer_view(answer)),
{
    match answer {
        Ok(r) => match room_members(&r) {
            Ok(members) => BKResponse::RoomMembers(members),
            Err(e) => BKResponse::RoomMembersError(e),
        },
        Err(e) => BKResponse::RoomMembersError(e),
    }
}

/// The response to the answer to a message sent.
pub fn send_done(answer: Result<Json, Error>) -> (response: BKResponse)
    ensures
        response@ == send_response(answer_view(answer)),
{
    match answer {
        Ok(_) => BKResponse::SendMsg,
        Err(e) => BKResponse::SendMsgError(e),
    }
}

/// The response to the answer about the protocols of the directory.
pub fn protocols_done(server: &str, answer: Result<Json, Error>) -> (response: BKResponse)
    ensures
        response@ == protocols_response(server@, answer_view(answer)),
{
    match answer {
        Ok(r) => match protocol_list(server, &r) {
            Ok(list) => BKResponse::DirectoryProtocols(list),
            Err(e) => BKResponse::DirectoryError(e),
        },
        Err(e) => BKResponse::DirectoryError(e),
    }
}

impl Backend {
    /// Takes the answer to a directory search: where it lists rooms,
    /// keeps the cursor of the answer and hands over the rooms; where it
    /// lists none, hands over the error and changes nothing.
    pub fn search_done(&mut self, answer: Result<Json, Error>) -> (response: BKResponse)
        ensures
            final(self).state == old(self).state,
            final(self).data@ == search_data(old(self).data@, answer_view(answer)),
            response@ == search_response(answer_view(answer)),
    {
        match answer {
            Ok(r) => match directory_rooms(&r) {
                Ok(rooms) => {
                    self.data.rooms_since = r.string_at("next_batch", "");
                    BKResponse::DirectorySearch(rooms)
                },
                Err(e) => BKResponse::DirectoryError(e),
            },
            Err(e) => BKResponse::DirectoryError(e),
        }
    }
}

} // verus!
