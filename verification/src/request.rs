//! The requests with which the engine answers a command.

use vstd::prelude::*;
use crate::backend::{Backend, BackendDataV, State};
use crate::media::{dw_media, media_fetch};
use crate::error::Error;
use crate::json::{entry_views, json_encoded, Json, JsonV};
use crate::command::{BKResponse, BKResponseV};
use crate::protocol::{
    action_views, Action, ActionV, Method, PictureUse, Request, RequestV, Task, TaskV,
};
use crate::text::{decimal, decimal_text, join2};
use crate::web::{absolute, resolve, texts, url_chain, url_parsed};

verus! {

/// The request that goes to the URL reached from `base` through `parts`,
/// or the error of a URL that cannot be built.
pub open spec fn request_from(
    method: Method,
    base: Seq<char>,
    parts: Seq<Seq<char>>,
    body: JsonV,
    task: TaskV,
) -> Result<ActionV, Error> {
    match url_chain(base, parts) {
        Some(url) => Ok(
            ActionV::Http {
                request: RequestV { method, url, body: json_encoded(body) },
                task,
            },
        ),
        None => Err(Error::BackendError),
    }
}

/// The request that goes to the URL reached from the server at `server`
/// through `parts`.
pub open spec fn request_to(
    method: Method,
    server: Seq<char>,
    parts: Seq<Seq<char>>,
    body: JsonV,
    task: TaskV,
) -> Result<ActionV, Error> {
    match url_parsed(server) {
        Some(base) => request_from(method, base, parts, body, task),
        None => Err(Error::BackendError),
    }
}

/// Builds the request that goes to the URL reached from `base` through
/// `parts`.
pub fn build_request(method: Method, base: &str, parts: &Vec<String>, body: &Json, task: Task) -> (r:
    Result<Action, Error>)
    ensures
        match r {
            Ok(a) => request_from(method, base@, texts(parts@), body@, task@) == Ok::<
                ActionV,
                Error,
            >(a@),
            Err(e) => request_from(method, base@, texts(parts@), body@, task@) == Err::<
                ActionV,
                Error,
            >(e),
        },
{
    match resolve(base, parts) {
        Ok(url) => Ok(Action::Http { request: Request { method, url, body: body.to_text() }, task }),
        Err(e) => Err(e),
    }
}

/// One entry of an object.
pub fn entry(key: &str, value: Json) -> (e: (String, Json))
    ensures
        e.0@ == key@,
        e.1@ == value@,
{
    (key.to_owned(), value)
}

/// The query that carries the access token.
pub open spec fn token_query(token: Seq<char>) -> Seq<char> {
    "?access_token="@ + token
}

/// The body of a login with a password.
pub open spec fn login_body(user: Seq<char>, password: Seq<char>) -> JsonV {
    JsonV::Object(
        seq![
            ("type"@, JsonV::Str("m.login.password"@)),
            ("user"@, JsonV::Str(user)),
            ("password"@, JsonV::Str(password)),
        ],
    )
}

/// The body of a registration with a password.
pub open spec fn register_body(user: Seq<char>, password: Seq<char>) -> JsonV {
    JsonV::Object(
        seq![
            ("auth"@, JsonV::Object(seq![("type"@, JsonV::Str("m.login.password"@))])),
            ("username"@, JsonV::Str(user)),
            ("bind_email"@, JsonV::Bool(false)),
            ("password"@, JsonV::Str(password)),
        ],
    )
}

/// The request that logs `user` in on the server at `server`.
pub open spec fn login_step(user: Seq<char>, password: Seq<char>, server: Seq<char>) -> Result<
    ActionV,
    Error,
> {
    request_to(
        Method::Post,
        server,
        seq!["/_matrix/client/r0/login"@],
        login_body(user, password),
        TaskV::Token { guest: false },
    )
}

/// The request that registers `user` on the server at `server`.
pub open spec fn register_step(user: Seq<char>, password: Seq<char>, server: Seq<char>) -> Result<
    ActionV,
    Error,
> {
    request_to(
        Method::Post,
        server,
        seq!["/_matrix/client/r0/register?kind=user"@],
        register_body(user, password),
        TaskV::Token { guest: false },
    )
}

/// The request that registers a guest on the server at `server`.
pub open spec fn guest_step(server: Seq<char>) -> Result<ActionV, Error> {
    request_to(
        Method::Post,
        server,
        seq!["/_matrix/client/r0/register?kind=guest"@],
        JsonV::Null,
        TaskV::Token { guest: true },
    )
}

/// The state after a command that begins a session: `Authenticating`,
/// unless the engine is shutting down.
pub open spec fn entering(state: State) -> State {
    if state == State::ShuttingDown {
        State::ShuttingDown
    } else {
        State::Authenticating
    }
}

impl Backend {
    /// Takes `server` as the session's server and begins a session on
    /// it by posting `body` to `part`.
    fn enter(&mut self, server: String, part: &str, body: &Json, guest: bool) -> (r: Result<
        Action,
        Error,
    >)
        ensures
            match r {
                Ok(a) => {
                    &&& request_to(
                        Method::Post,
                        server@,
                        seq![part@],
                        body@,
                        TaskV::Token { guest },
                    ) == Ok::<ActionV, Error>(a@)
                    &&& final(self).data@ == (BackendDataV {
                        server_url: server@,
                        ..old(self).data@
                    })
                    &&& final(self).state == entering(old(self).state)
                },
                Err(e) => {
                    &&& request_to(
                        Method::Post,
                        server@,
                        seq![part@],
                        body@,
                        TaskV::Token { guest },
                    ) == Err::<ActionV, Error>(e)
                    &&& *final(self) == *old(self)
                },
            },
    {
        let base = match absolute(server.as_str()) {
            Ok(base) => base,
            Err(e) => {
                return Err(e);
            },
        };
        let mut parts: Vec<String> = Vec::new();
        parts.push(part.to_owned());
        assert(texts(parts@) =~= seq![part@]);
        let action = match build_request(
            Method::Post,
            base.as_str(),
            &parts,
            body,
            Task::Token { guest },
        ) {
            Ok(a) => a,
            Err(e) => {
                return Err(e);
            },
        };
        self.data.server_url = server;
        if self.state != State::ShuttingDown {
            self.state = State::Authenticating;
        }
        Ok(action)
    }

    /// Begins a session with a user name and a password.  On success the
    /// server is taken as the session's server and the engine is
    /// `Authenticating`; where the URL cannot be built nothing changes.
    pub fn login(&mut self, user: String, password: String, server: String) -> (r: Result<
        Action,
        Error,
    >)
        ensures
            match r {
                Ok(a) => {
                    &&& login_step(user@, password@, server@) == Ok::<ActionV, Error>(a@)
                    &&& final(self).data@ == (BackendDataV {
                        server_url: server@,
                        ..old(self).data@
                    })
                    &&& final(self).state == entering(old(self).state)
                },
                Err(e) => {
                    &&& login_step(user@, password@, server@) == Err::<ActionV, Error>(e)
                    &&& *final(self) == *old(self)
                },
            },
    {
        let mut entries: Vec<(String, Json)> = Vec::new();
        entries.push(entry("type", Json::text("m.login.password")));
        entries.push(entry("user", Json::text(user.as_str())));
        entries.push(entry("password", Json::text(password.as_str())));
        assert(entry_views(entries@) =~= login_body(user@, password@)->Object_0);
        let body = Json::object(entries);
        self.enter(server, "/_matrix/client/r0/login", &body, false)
    }

    /// Begins a session by registering a user name with a password.
    pub fn register(&mut self, user: String, password: String, server: String) -> (r: Result<
        Action,
        Error,
    >)
        ensures
            match r {
                Ok(a) => {
                    &&& register_step(user@, password@, server@) == Ok::<ActionV, Error>(a@)
                    &&& final(self).data@ == (BackendDataV {
                        server_url: server@,
                        ..old(self).data@
                    })
                    &&& final(self).state == entering(old(self).state)
                },
                Err(e) => {
                    &&& register_step(user@, password@, server@) == Err::<ActionV, Error>(e)
                    &&& *final(self) == *old(self)
                },
            },
    {
        let mut auth: Vec<(String, Json)> = Vec::new();
        auth.push(entry("type", Json::text("m.login.password")));
        assert(entry_views(auth@) =~= seq![("type"@, JsonV::Str("m.login.password"@))]);
        let mut entries: Vec<(String, Json)> = Vec::new();
        entries.push(entry("auth", Json::object(auth)));
        entries.push(entry("username", Json::text(user.as_str())));
        entries.push(entry("bind_email", Json::Bool(false)));
        entries.push(entry("password", Json::text(password.as_str())));
        assert(entry_views(entries@) =~= register_body(user@, password@)->Object_0);
        let body = Json::object(entries);
        self.enter(server, "/_matrix/client/r0/register?kind=user", &body, false)
    }

    /// Begins a session as a guest.
    pub fn guest(&mut self, server: String) -> (r: Result<Action, Error>)
        ensures
            match r {
                Ok(a) => {
                    &&& guest_step(server@) == Ok::<ActionV, Error>(a@)
                    &&& final(self).data@ == (BackendDataV {
                        server_url: server@,
                        ..old(self).data@
                    })
                    &&& final(self).state == entering(old(self).state)
                },
                Err(e) => {
                    &&& guest_step(server@) == Err::<ActionV, Error>(e)
                    &&& *final(self) == *old(self)
                },
            },
    {
        self.enter(server, "/_matrix/client/r0/register?kind=guest", &Json::Null, true)
    }
}

/// The request for the display name of the session's user.
pub open spec fn username_step(data: BackendDataV) -> Result<ActionV, Error> {
    request_to(
        Method::Get,
        data.server_url,
        seq!["/_matrix/client/r0/profile/"@, data.user_id + "/"@, "displayname"@],
        JsonV::Null,
        TaskV::Username { uid: data.user_id },
    )
}

/// The request for the profile of the user `uid`, whose picture is
/// wanted for `then`.
pub open spec fn profile_step(server: Seq<char>, uid: Seq<char>, then: PictureUse) -> Result<
    ActionV,
    Error,
> {
    match url_parsed(server) {
        Some(base) => request_from(
            Method::Get,
            base,
            seq!["/_matrix/client/r0/profile/"@, uid],
            JsonV::Null,
            TaskV::Profile { base, uid, then },
        ),
        None => Err(Error::BackendError),
    }
}

/// The first step towards the thumbnail of `media` for the caller's
/// channel `channel`: the download, or an empty path at once where the
/// reference cannot be resolved.
pub open spec fn thumb_step(server: Seq<char>, media: Seq<char>, channel: u64) -> Result<
    ActionV,
    Error,
> {
    match url_parsed(server) {
        Some(base) => match media_fetch(base, media, true, None, 64, 64) {
            Ok(fetch) => Ok(
                ActionV::Media {
                    fetch,
                    task: TaskV::Picture { then: PictureUse::Reply(channel), fallback: None },
                },
            ),
            Err(_) => Ok(ActionV::Reply(channel, Seq::empty())),
        },
        None => Err(Error::BackendError),
    }
}

/// Begins the way to the avatar of the user `uid`: the request for the
/// user's profile.
pub fn get_user_avatar(server: &str, uid: &str, then: PictureUse) -> (r: Result<Action, Error>)
    ensures
        match r {
            Ok(a) => profile_step(server@, uid@, then) == Ok::<ActionV, Error>(a@),
            Err(e) => profile_step(server@, uid@, then) == Err::<ActionV, Error>(e),
        },
{
    let base = match absolute(server) {
        Ok(base) => base,
        Err(e) => {
            return Err(e);
        },
    };
    let mut parts: Vec<String> = Vec::new();
    parts.push("/_matrix/client/r0/profile/".to_owned());
    parts.push(uid.to_owned());
    assert(texts(parts@) =~= seq!["/_matrix/client/r0/profile/"@, uid@]);
    let task = Task::Profile { base: base.clone(), uid: uid.to_owned(), then };
    build_request(Method::Get, base.as_str(), &parts, &Json::Null, task)
}

impl Backend {
    /// Asks for the display name of the session's user.
    pub fn get_username(&self) -> (r: Result<Action, Error>)
        ensures
            match r {
                Ok(a) => username_step(self.data@) == Ok::<ActionV, Error>(a@),
                Err(e) => username_step(self.data@) == Err::<ActionV, Error>(e),
            },
    {
        let base = match self.get_base_url() {
            Ok(base) => base,
            Err(e) => {
                return Err(e);
            },
        };
        let mut parts: Vec<String> = Vec::new();
        parts.push("/_matrix/client/r0/profile/".to_owned());
        parts.push(join2(self.data.user_id.as_str(), "/"));
        parts.push("displayname".to_owned());
        assert(texts(parts@) =~= seq![
            "/_matrix/client/r0/profile/"@,
            self.data.user_id@ + "/"@,
            "displayname"@,
        ]);
        let task = Task::Username { uid: self.data.user_id.clone() };
        build_request(Method::Get, base.as_str(), &parts, &Json::Null, task)
    }

    /// Asks for the avatar of the session's user.
    pub fn get_avatar(&self) -> (r: Result<Action, Error>)
        ensures
            match r {
                Ok(a) => profile_step(self.data.server_url@, self.data.user_id@, PictureUse::Avatar)
                    == Ok::<ActionV, Error>(a@),
                Err(e) => profile_step(
                    self.data.server_url@,
                    self.data.user_id@,
                    PictureUse::Avatar,
                ) == Err::<ActionV, Error>(e),
            },
    {
        get_user_avatar(
            self.data.server_url.as_str(),
            self.data.user_id.as_str(),
            PictureUse::Avatar,
        )
    }

    /// Asks for the avatar of the user `uid`, for the caller's channel
    /// `channel`.
    pub fn get_avatar_async(&self, uid: &str, channel: u64) -> (r: Result<Action, Error>)
        ensures
            match r {
                Ok(a) => profile_step(self.data.server_url@, uid@, PictureUse::Reply(channel))
                    == Ok::<ActionV, Error>(a@),
                Err(e) => profile_step(self.data.server_url@, uid@, PictureUse::Reply(channel))
                    == Err::<ActionV, Error>(e),
            },
    {
        get_user_avatar(self.data.server_url.as_str(), uid, PictureUse::Reply(channel))
    }

    /// Asks for the thumbnail of `media`, for the caller's channel
    /// `channel`.
    pub fn get_thumb_async(&self, media: String, channel: u64) -> (r: Result<Action, Error>)
        ensures
            match r {
                Ok(a) => thumb_step(self.data.server_url@, media@, channel) == Ok::<
                    ActionV,
                    Error,
                >(a@),
                Err(e) => thumb_step(self.data.server_url@, media@, channel) == Err::<
                    ActionV,
                    Error,
                >(e),
            },
    {
        let base = match self.get_base_url() {
            Ok(base) => base,
            Err(e) => {
                return Err(e);
            },
        };
        match dw_media(base.as_str(), media.as_str(), true, None, 64, 64) {
            Ok(fetch) => Ok(
                Action::Media {
                    fetch,
                    task: Task::Picture { then: PictureUse::Reply(channel), fallback: None },
                },
            ),
            Err(_) => Ok(Action::Reply(channel, String::new())),
        }
    }
}

/// The parts that lead to something of a room: the room's id, then
/// `tail`, then `query`.
pub open spec fn room_parts(roomid: Seq<char>, tail: Seq<char>, query: Seq<char>) -> Seq<
    Seq<char>,
> {
    seq!["/_matrix/client/r0/rooms/"@, roomid + "/"@, tail, query]
}

fn room_path(roomid: &str, tail: String, query: String) -> (parts: Vec<String>)
    ensures
        texts(parts@) == room_parts(roomid@, tail@, query@),
{
    let mut parts: Vec<String> = Vec::new();
    parts.push("/_matrix/client/r0/rooms/".to_owned());
    parts.push(join2(roomid, "/"));
    parts.push(tail);
    parts.push(query);
    assert(texts(parts@) =~= room_parts(roomid@, tail@, query@));
    parts
}

/// The request for the value under `key` of the state of `roomid`.
pub open spec fn room_detail_step(data: BackendDataV, roomid: Seq<char>, key: Seq<char>) -> Result<
    ActionV,
    Error,
> {
    request_to(
        Method::Get,
        data.server_url,
        room_parts(roomid, "state/"@ + key, token_query(data.access_token)),
        JsonV::Null,
        TaskV::RoomDetail { key },
    )
}

/// The request for the avatar event of `roomid`.
pub open spec fn room_avatar_step(data: BackendDataV, roomid: Seq<char>) -> Result<
    ActionV,
    Error,
> {
    match url_parsed(data.server_url) {
        Some(base) => request_from(
            Method::Get,
            base,
            room_parts(roomid, "state/m.room.avatar"@, token_query(data.access_token)),
            JsonV::Null,
            TaskV::RoomAvatar {
                roomid,
                base,
                token: data.access_token,
                userid: data.user_id,
            },
        ),
        None => Err(Error::BackendError),
    }
}

/// The request for the whole state of `roomid`, from the server whose
/// URL is `base`.
pub open spec fn room_state_step(
    base: Seq<char>,
    token: Seq<char>,
    userid: Seq<char>,
    roomid: Seq<char>,
) -> Result<ActionV, Error> {
    request_from(
        Method::Get,
        base,
        seq!["/_matrix/client/r0/rooms/"@, roomid + "/state"@, token_query(token)],
        JsonV::Null,
        TaskV::RoomState { roomid, base, userid },
    )
}

/// The query of a request for a page of messages: the newest eight
/// backwards, from the end of the last page where `to` is set.
pub open spec fn messages_query(data: BackendDataV, to: bool) -> Seq<char> {
    if to {
        token_query(data.access_token) + "&dir=b&limit=8"@ + "&from="@ + data.msgs_batch_end
    } else {
        token_query(data.access_token) + "&dir=b&limit=8"@
    }
}

/// The request for a page of the history of `roomid`.
pub open spec fn messages_step(data: BackendDataV, roomid: Seq<char>, to: bool) -> Result<
    ActionV,
    Error,
> {
    match url_parsed(data.server_url) {
        Some(base) => request_from(
            Method::Get,
            base,
            room_parts(roomid, "messages"@, messages_query(data, to)),
            JsonV::Null,
            TaskV::RoomMessages { roomid, to, base },
        ),
        None => Err(Error::BackendError),
    }
}

/// The request for the members of `roomid`.
pub open spec fn members_step(data: BackendDataV, roomid: Seq<char>) -> Result<ActionV, Error> {
    request_to(
        Method::Get,
        data.server_url,
        room_parts(roomid, "members"@, token_query(data.access_token)),
        JsonV::Null,
        TaskV::RoomMembers,
    )
}

/// Asks for the whole state of `roomid`.
pub fn get_room_st(base: &str, token: &str, userid: &str, roomid: &str) -> (r: Result<
    Action,
    Error,
>)
    ensures
        match r {
            Ok(a) => room_state_step(base@, token@, userid@, roomid@) == Ok::<ActionV, Error>(a@),
            Err(e) => room_state_step(base@, token@, userid@, roomid@) == Err::<ActionV, Error>(
                e,
            ),
        },
{
    let mut parts: Vec<String> = Vec::new();
    parts.push("/_matrix/client/r0/rooms/".to_owned());
    parts.push(join2(roomid, "/state"));
    parts.push(join2("?access_token=", token));
    assert(texts(parts@) =~= seq![
        "/_matrix/client/r0/rooms/"@,
        roomid@ + "/state"@,
        token_query(token@),
    ]);
    let task = Task::RoomState {
        roomid: roomid.to_owned(),
        base: base.to_owned(),
        userid: userid.to_owned(),
    };
    build_request(Method::Get, base, &parts, &Json::Null, task)
}

impl Backend {
    /// Asks for the value under `key` of the state of `roomid`.
    pub fn get_room_detail(&self, roomid: String, key: String) -> (r: Result<Action, Error>)
        ensures
            match r {
                Ok(a) => room_detail_step(self.data@, roomid@, key@) == Ok::<ActionV, Error>(a@),
                Err(e) => room_detail_step(self.data@, roomid@, key@) == Err::<ActionV, Error>(e),
            },
    {
        let base = match self.get_base_url() {
            Ok(base) => base,
            Err(e) => {
                return Err(e);
            },
        };
        let parts = room_path(
            roomid.as_str(),
            join2("state/", key.as_str()),
            join2("?access_token=", self.data.access_token.as_str()),
        );
        build_request(Method::Get, base.as_str(), &parts, &Json::Null, Task::RoomDetail { key })
    }

    /// Asks for the avatar event of `roomid`.
    pub fn get_room_avatar(&self, roomid: String) -> (r: Result<Action, Error>)
        ensures
            match r {
                Ok(a) => room_avatar_step(self.data@, roomid@) == Ok::<ActionV, Error>(a@),
                Err(e) => room_avatar_step(self.data@, roomid@) == Err::<ActionV, Error>(e),
            },
    {
        let base = match self.get_base_url() {
            Ok(base) => base,
            Err(e) => {
                return Err(e);
            },
        };
        let parts = room_path(
            roomid.as_str(),
            "state/m.room.avatar".to_owned(),
            join2("?access_token=", self.data.access_token.as_str()),
        );
        let task = Task::RoomAvatar {
            roomid,
            base: base.clone(),
            token: self.data.access_token.clone(),
            userid: self.data.user_id.clone(),
        };
        build_request(Method::Get, base.as_str(), &parts, &Json::Null, task)
    }

    /// Asks for a page of the history of `roomid`: the latest messages,
    /// or, where `to` is set, those before the last page.
    pub fn get_room_messages(&self, roomid: String, to: bool) -> (r: Result<Action, Error>)
        ensures
            match r {
                Ok(a) => messages_step(self.data@, roomid@, to) == Ok::<ActionV, Error>(a@),
                Err(e) => messages_step(self.data@, roomid@, to) == Err::<ActionV, Error>(e),
            },
    {
        let base = match self.get_base_url() {
            Ok(base) => base,
            Err(e) => {
                return Err(e);
            },
        };
        let mut query = join2("?access_token=", self.data.access_token.as_str());
        query.append("&dir=b&limit=8");
        if to {
            query.append("&from=");
            query.append(self.data.msgs_batch_end.as_str());
        }
        let parts = room_path(roomid.as_str(), "messages".to_owned(), query);
        let task = Task::RoomMessages { roomid, to, base: base.clone() };
        build_request(Method::Get, base.as_str(), &parts, &Json::Null, task)
    }

    /// Asks for the members of `roomid`.
    pub fn get_room_members(&self, roomid: String) -> (r: Result<Action, Error>)
        ensures
            match r {
                Ok(a) => members_step(self.data@, roomid@) == Ok::<ActionV, Error>(a@),
                Err(e) => members_step(self.data@, roomid@) == Err::<ActionV, Error>(e),
            },
    {
        let base = match self.get_base_url() {
            Ok(base) => base,
            Err(e) => {
                return Err(e);
            },
        };
        let parts = room_path(
            roomid.as_str(),
            "members".to_owned(),
            join2("?access_token=", self.data.access_token.as_str()),
        );
        build_request(Method::Get, base.as_str(), &parts, &Json::Null, Task::RoomMembers)
    }
}

/// The filter of the first sync: the state of the rooms and nothing of
/// their timelines.
pub open spec fn sync_filter() -> Seq<char> {
    "{\"room\":{\"state\":{\"types\":[\"m.room.*\"]},\"timeline\":{\"limit\":0},\"ephemeral\":{\"types\":[]}},\"presence\":{\"types\":[]},\"event_format\":\"client\",\"event_fields\":[\"type\",\"content\",\"sender\"]}"@
}

/// The query of a sync, which waits up to thirty seconds for news: the
/// first sync of a session, with an empty cursor, carries the filter;
/// every later one carries the cursor.
pub open spec fn sync_query(data: BackendDataV) -> Seq<char> {
    if data.since.len() == 0 {
        "?full_state=false&timeout=30000&access_token="@ + data.access_token + "&filter="@
            + sync_filter()
    } else {
        "?full_state=false&timeout=30000&access_token="@ + data.access_token + "&since="@
            + data.since
    }
}

/// The request of a sync.
pub open spec fn sync_step(data: BackendDataV) -> Result<ActionV, Error> {
    match url_parsed(data.server_url) {
        Some(base) => request_from(
            Method::Get,
            base,
            seq!["/_matrix/client/r0/sync"@, sync_query(data)],
            JsonV::Null,
            TaskV::Sync { initial: data.since.len() == 0, base, userid: data.user_id },
        ),
        None => Err(Error::BackendError),
    }
}

/// The state once a sync is under way.
pub open spec fn syncing(state: State) -> State {
    match state {
        State::Authenticated { syncing } => State::Authenticated { syncing: true },
        other => other,
    }
}

/// The body of a text message.
pub open spec fn message_body(msg: Seq<char>) -> JsonV {
    JsonV::Object(seq![("body"@, JsonV::Str(msg)), ("msgtype"@, JsonV::Str("m.text"@))])
}

/// The request that sends `msg` to `roomid` as the message number
/// `data.msgid`.
pub open spec fn send_step(data: BackendDataV, roomid: Seq<char>, msg: Seq<char>) -> Result<
    ActionV,
    Error,
> {
    request_to(
        Method::Put,
        data.server_url,
        seq![
            "/_matrix/client/r0/rooms/"@,
            roomid + "/"@,
            "send/m.room.message/"@,
            decimal_text(data.msgid as int),
            token_query(data.access_token),
        ],
        message_body(msg),
        TaskV::SendMsg,
    )
}

/// The session with the next message number taken.
pub open spec fn numbered(data: BackendDataV) -> BackendDataV {
    BackendDataV { msgid: (data.msgid + 1) as i32, ..data }
}

/// The request that sends `msg` to `roomid` under the next message
/// number, or the error of a message that cannot be sent: once the
/// numbers have run out none can.
pub open spec fn send_attempt(data: BackendDataV, roomid: Seq<char>, msg: Seq<char>) -> Result<
    ActionV,
    Error,
> {
    if data.msgid == i32::MAX {
        Err(Error::BackendError)
    } else {
        send_step(numbered(data), roomid, msg)
    }
}

/// The request for the protocols of the directory.
pub open spec fn protocols_step(data: BackendDataV) -> Result<ActionV, Error> {
    request_to(
        Method::Get,
        data.server_url,
        seq![
            "/_matrix/client/unstable/thirdparty/protocols"@,
            token_query(data.access_token),
        ],
        JsonV::Null,
        TaskV::Protocols { server: data.server_url },
    )
}

/// The entries of a directory search: at most twenty rooms; the term
/// where one is given; the protocol where one is given; and the cursor of
/// the last page where `more` is set.
pub open spec fn search_entries(
    data: BackendDataV,
    query: Option<Seq<char>>,
    third_party: Option<Seq<char>>,
    more: bool,
) -> Seq<(Seq<char>, JsonV)> {
    seq![("limit"@, JsonV::Number(Some(20i64)))] + (match query {
        Some(q) => seq![
            ("filter"@, JsonV::Object(seq![("generic_search_term"@, JsonV::Str(q))])),
        ],
        None => Seq::empty(),
    }) + (match third_party {
        Some(tp) => seq![("third_party_instance_id"@, JsonV::Str(tp))],
        None => Seq::empty(),
    }) + (if more {
        seq![("since"@, JsonV::Str(data.rooms_since))]
    } else {
        Seq::empty()
    })
}

/// The request of a directory search.
pub open spec fn search_step(
    data: BackendDataV,
    query: Option<Seq<char>>,
    third_party: Option<Seq<char>>,
    more: bool,
) -> Result<ActionV, Error> {
    request_to(
        Method::Post,
        data.server_url,
        seq!["/_matrix/client/r0/publicRooms"@, token_query(data.access_token)],
        JsonV::Object(search_entries(data, query, third_party, more)),
        TaskV::RoomSearch,
    )
}

/// The characters of a string that may be absent.
pub open spec fn chars_of_option(s: Option<String>) -> Option<Seq<char>> {
    match s {
        Some(t) => Some(t@),
        None => None,
    }
}

fn sync_filter_text() -> (s: &'static str)
    ensures
        s@ == sync_filter(),
{
    "{\"room\":{\"state\":{\"types\":[\"m.room.*\"]},\"timeline\":{\"limit\":0},\"ephemeral\":{\"types\":[]}},\"presence\":{\"types\":[]},\"event_format\":\"client\",\"event_fields\":[\"type\",\"content\",\"sender\"]}"
}

impl Backend {
    /// Asks the server for news.  With an empty cursor this is the first
    /// sync of the session, which brings the rooms; with a cursor it
    /// brings what happened since.  An engine that is `Authenticated` is
    /// syncing from now on.
    pub fn sync(&mut self) -> (r: Result<Action, Error>)
        ensures
            final(self).data == old(self).data,
            match r {
                Ok(a) => {
                    &&& sync_step(old(self).data@) == Ok::<ActionV, Error>(a@)
                    &&& final(self).state == syncing(old(self).state)
                },
                Err(e) => {
                    &&& sync_step(old(self).data@) == Err::<ActionV, Error>(e)
                    &&& final(self).state == old(self).state
                },
            },
    {
        let base = match self.get_base_url() {
            Ok(base) => base,
            Err(e) => {
                return Err(e);
            },
        };
        let initial = self.data.since.as_str().is_empty();
        let mut query = join2(
            "?full_state=false&timeout=30000&access_token=",
            self.data.access_token.as_str(),
        );
        if initial {
            query.append("&filter=");
            query.append(sync_filter_text());
        } else {
            query.append("&since=");
            query.append(self.data.since.as_str());
        }
        let mut parts: Vec<String> = Vec::new();
        parts.push("/_matrix/client/r0/sync".to_owned());
        parts.push(query);
        assert(texts(parts@) =~= seq!["/_matrix/client/r0/sync"@, sync_query(self.data@)]);
        let task = Task::Sync { initial, base: base.clone(), userid: self.data.user_id.clone() };
        let action = match build_request(Method::Get, base.as_str(), &parts, &Json::Null, task) {
            Ok(a) => a,
            Err(e) => {
                return Err(e);
            },
        };
        match self.state {
            State::Authenticated { syncing } => {
                self.state = State::Authenticated { syncing: true };
            },
            _ => {},
        }
        Ok(action)
    }

    /// Sends the text `msg` to `roomid` under the next message number.
    /// The number is taken once the request is built; a message that
    /// cannot be sent, be it that the numbers have run out, leaves the
    /// session as it was.
    pub fn send_msg(&mut self, roomid: String, msg: String) -> (r: Result<Action, Error>)
        ensures
            final(self).state == old(self).state,
            match r {
                Ok(a) => {
                    &&& send_attempt(old(self).data@, roomid@, msg@) == Ok::<ActionV, Error>(a@)
                    &&& final(self).data@ == numbered(old(self).data@)
                    &&& final(self).data.msgid > old(self).data.msgid
                },
                Err(e) => {
                    &&& send_attempt(old(self).data@, roomid@, msg@) == Err::<ActionV, Error>(e)
                    &&& final(self).data == old(self).data
                },
            },
    {
        if self.data.msgid == i32::MAX {
            return Err(Error::BackendError);
        }
        let number = self.data.msgid + 1;
        let base = match self.get_base_url() {
            Ok(base) => base,
            Err(e) => {
                return Err(e);
            },
        };
        let mut parts: Vec<String> = Vec::new();
        parts.push("/_matrix/client/r0/rooms/".to_owned());
        parts.push(join2(roomid.as_str(), "/"));
        parts.push("send/m.room.message/".to_owned());
        parts.push(decimal(number as i64));
        parts.push(join2("?access_token=", self.data.access_token.as_str()));
        assert(texts(parts@) =~= seq![
            "/_matrix/client/r0/rooms/"@,
            roomid@ + "/"@,
            "send/m.room.message/"@,
            decimal_text(number as int),
            token_query(self.data.access_token@),
        ]);
        let mut entries: Vec<(String, Json)> = Vec::new();
        entries.push(entry("body", Json::text(msg.as_str())));
        entries.push(entry("msgtype", Json::text("m.text")));
        assert(entry_views(entries@) =~= message_body(msg@)->Object_0);
        let body = Json::object(entries);
        match build_request(Method::Put, base.as_str(), &parts, &body, Task::SendMsg) {
            Ok(a) => {
                self.data.msgid = number;
                Ok(a)
            },
            Err(e) => Err(e),
        }
    }

    /// Asks for the protocols of the directory.
    pub fn protocols(&self) -> (r: Result<Action, Error>)
        ensures
            match r {
                Ok(a) => protocols_step(self.data@) == Ok::<ActionV, Error>(a@),
                Err(e) => protocols_step(self.data@) == Err::<ActionV, Error>(e),
            },
    {
        let base = match self.get_base_url() {
            Ok(base) => base,
            Err(e) => {
                return Err(e);
            },
        };
        let mut parts: Vec<String> = Vec::new();
        parts.push("/_matrix/client/unstable/thirdparty/protocols".to_owned());
        parts.push(join2("?access_token=", self.data.access_token.as_str()));
        assert(texts(parts@) =~= seq![
            "/_matrix/client/unstable/thirdparty/protocols"@,
            token_query(self.data.access_token@),
        ]);
        let task = Task::Protocols { server: self.data.server_url.clone() };
        build_request(Method::Get, base.as_str(), &parts, &Json::Null, task)
    }

    /// Searches the directory for `query` among the rooms of the
    /// protocol `third_party`; `more` asks for the page after the last.
    pub fn room_search(&self, query: Option<String>, third_party: Option<String>, more: bool) -> (r:
        Result<Action, Error>)
        ensures
            match r {
                Ok(a) => search_step(
                    self.data@,
                    chars_of_option(query),
                    chars_of_option(third_party),
                    more,
                ) == Ok::<ActionV, Error>(a@),
                Err(e) => search_step(
                    self.data@,
                    chars_of_option(query),
                    chars_of_option(third_party),
                    more,
                ) == Err::<ActionV, Error>(e),
            },
    {
        let base = match self.get_base_url() {
            Ok(base) => base,
            Err(e) => {
                return Err(e);
            },
        };
        let mut parts: Vec<String> = Vec::new();
        parts.push("/_matrix/client/r0/publicRooms".to_owned());
        parts.push(join2("?access_token=", self.data.access_token.as_str()));
        assert(texts(parts@) =~= seq![
            "/_matrix/client/r0/publicRooms"@,
            token_query(self.data.access_token@),
        ]);
        let mut entries: Vec<(String, Json)> = Vec::new();
        entries.push(entry("limit", Json::Number(Some(20))));
        if let Some(q) = &query {
            let mut filter: Vec<(String, Json)> = Vec::new();
            filter.push(entry("generic_search_term", Json::text(q.as_str())));
            assert(entry_views(filter@) =~= seq![("generic_search_term"@, JsonV::Str(q@))]);
            entries.push(entry("filter", Json::object(filter)));
        }
        if let Some(tp) = &third_party {
            entries.push(entry("third_party_instance_id", Json::text(tp.as_str())));
        }
        if more {
            entries.push(entry("since", Json::text(self.data.rooms_since.as_str())));
        }
        assert(entry_views(entries@) =~= search_entries(
            self.data@,
            chars_of_option(query),
            chars_of_option(third_party),
            more,
        ));
        let body = Json::object(entries);
        build_request(Method::Post, base.as_str(), &parts, &body, Task::RoomSearch)
    }
}

/// The session once a room is chosen: the cursors of the history are
/// empty.
pub open spec fn choosing_room(data: BackendDataV) -> BackendDataV {
    BackendDataV { msgs_batch_start: Seq::empty(), msgs_batch_end: Seq::empty(), ..data }
}

/// What choosing the room `roomid` sets off: the requests for its
/// topic, for its avatar and for its members, as far as they can be
/// built; the first that cannot ends the list with its error.
pub open spec fn set_room_steps(data: BackendDataV, roomid: Seq<char>) -> Seq<ActionV> {
    match room_detail_step(data, roomid, "m.room.topic"@) {
        Err(e) => seq![ActionV::Respond(BKResponseV::SetRoomError(e))],
        Ok(topic) => match room_avatar_step(data, roomid) {
            Err(e) => seq![topic, ActionV::Respond(BKResponseV::SetRoomError(e))],
            Ok(avatar) => match members_step(data, roomid) {
                Err(e) => seq![topic, avatar, ActionV::Respond(BKResponseV::SetRoomError(e))],
                Ok(members) => seq![topic, avatar, members],
            },
        },
    }
}

impl Backend {
    /// Chooses the room `roomid`: empties the cursors of the history and
    /// asks for the room's topic, avatar and members.
    pub fn set_room(&mut self, roomid: String) -> (actions: Vec<Action>)
        ensures
            final(self).state == old(self).state,
            final(self).data@ == choosing_room(old(self).data@),
            action_views(actions@) == set_room_steps(final(self).data@, roomid@),
    {
        self.data.msgs_batch_start = String::new();
        self.data.msgs_batch_end = String::new();
        let mut actions: Vec<Action> = Vec::new();
        match self.get_room_detail(roomid.clone(), "m.room.topic".to_owned()) {
            Ok(a) => {
                actions.push(a);
            },
            Err(e) => {
                actions.push(Action::Respond(BKResponse::SetRoomError(e)));
                assert(action_views(actions@) =~= set_room_steps(self.data@, roomid@));
                return actions;
            },
        }
        match self.get_room_avatar(roomid.clone()) {
            Ok(a) => {
                actions.push(a);
            },
            Err(e) => {
                actions.push(Action::Respond(BKResponse::SetRoomError(e)));
                assert(action_views(actions@) =~= set_room_steps(self.data@, roomid@));
                return actions;
            },
        }
        match self.get_room_members(roomid) {
            Ok(a) => {
                actions.push(a);
            },
            Err(e) => {
                actions.push(Action::Respond(BKResponse::SetRoomError(e)));
            },
        }
        assert(action_views(actions@) =~= set_room_steps(self.data@, roomid@));
        actions
    }
}

} // verus!
