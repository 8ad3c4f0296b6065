//! The exchange between the engine and the code that does its
//! input and output: the engine hands out actions, and takes back the
//! outcome of each together with the task that the action was for.

use vstd::prelude::*;
use crate::command::{BKResponse, BKResponseV};
use crate::error::Error;
use crate::icon::{Identicon, IdenticonV};
use crate::media::{MediaFetch, MediaFetchV};
use crate::timeline::{parsed_views, Parsed, ParsedV};

verus! {

/// The method of a request.
#[derive(Clone, Copy, Debug, PartialEq, Eq, Structural)]
pub enum Method {
    Get,
    Post,
    Put,
}

/// A request to the server.  The body is a JSON text.
#[derive(Debug)]
pub struct Request {
    pub method: Method,
    pub url: String,
    pub body: String,
}

/// The value of a [`Request`].
pub struct RequestV {
    pub method: Method,
    pub url: Seq<char>,
    pub body: Seq<char>,
}

impl View for Request {
    type V = RequestV;

    open spec fn view(&self) -> RequestV {
        RequestV { method: self.method, url: self.url@, body: self.body@ }
    }
}

/// What came of an action.
#[derive(Debug)]
pub enum Outcome {
    /// The server answered with this status and this body.
    Http { status: u16, body: String },
    /// The file is at this path.
    File(String),
    /// The action failed.
    Failed(Error),
}

/// The response in which a page of messages is handed over.
#[derive(Clone, Copy, Debug, PartialEq, Eq, Structural)]
pub enum PageKind {
    /// The latest messages of a room.
    Messages,
    /// Older messages of a room.
    MessagesTo,
    /// The new messages of a sync.
    Sync,
}

/// What a picture is for.
#[derive(Clone, Copy, Debug, PartialEq, Eq, Structural)]
pub enum PictureUse {
    /// The avatar of the session's user.
    Avatar,
    /// The avatar of a room.
    RoomAvatar,
    /// A picture for the caller's channel with this number.
    Reply(u64),
}

/// What the outcome of an action is for.
#[derive(Debug)]
pub enum Task {
    /// The answer to a login or a registration.
    Token { guest: bool },
    /// The display name of the user `uid`.
    Username { uid: String },
    /// The profile of the user `uid` on the server at `base`, asked for
    /// the sake of a picture.
    Profile { base: String, uid: String, then: PictureUse },
    /// A picture; where it cannot be had, `fallback` is drawn instead.
    Picture { then: PictureUse, fallback: Option<Identicon> },
    /// A sync of the user `userid` on the server at `base`, the first of
    /// the session where `initial` is set.
    Sync { initial: bool, base: String, userid: String },
    /// The value under `key` of a room's state.
    RoomDetail { key: String },
    /// The avatar event of the room `roomid`.
    RoomAvatar { roomid: String, base: String, token: String, userid: String },
    /// The state of the room `roomid`, asked for the sake of its picture.
    RoomState { roomid: String, base: String, userid: String },
    /// A page of the history of the room `roomid`.
    RoomMessages { roomid: String, to: bool, base: String },
    /// The thumbnail of the message at `at` of `page`.
    Thumbs { page: Vec<Parsed>, at: usize, kind: PageKind },
    RoomMembers,
    SendMsg,
    /// The protocols of the directory of the server at the URL `server`.
    Protocols { server: String },
    RoomSearch,
}

/// The value of a [`Task`].
pub enum TaskV {
    Token { guest: bool },
    Username { uid: Seq<char> },
    Profile { base: Seq<char>, uid: Seq<char>, then: PictureUse },
    Picture { then: PictureUse, fallback: Option<IdenticonV> },
    Sync { initial: bool, base: Seq<char>, userid: Seq<char> },
    RoomDetail { key: Seq<char> },
    RoomAvatar { roomid: Seq<char>, base: Seq<char>, token: Seq<char>, userid: Seq<char> },
    RoomState { roomid: Seq<char>, base: Seq<char>, userid: Seq<char> },
    RoomMessages { roomid: Seq<char>, to: bool, base: Seq<char> },
    Thumbs { page: Seq<ParsedV>, at: usize, kind: PageKind },
    RoomMembers,
    SendMsg,
    Protocols { server: Seq<char> },
    RoomSearch,
}

impl View for Task {
    type V = TaskV;

    open spec fn view(&self) -> TaskV {
        match self {
            Task::Token { guest } => TaskV::Token { guest: *guest },
            Task::Username { uid } => TaskV::Username { uid: uid@ },
            Task::Profile { base, uid, then } => TaskV::Profile {
                base: base@,
                uid: uid@,
                then: *then,
            },
            Task::Picture { then, fallback } => TaskV::Picture {
                then: *then,
                fallback: match fallback {
                    Some(icon) => Some(icon@),
                    None => None,
                },
            },
            Task::Sync { initial, base, userid } => TaskV::Sync {
                initial: *initial,
                base: base@,
                userid: userid@,
            },
            Task::RoomDetail { key } => TaskV::RoomDetail { key: key@ },
            Task::RoomAvatar { roomid, base, token, userid } => TaskV::RoomAvatar {
                roomid: roomid@,
                base: base@,
                token: token@,
                userid: userid@,
            },
            Task::RoomState { roomid, base, userid } => TaskV::RoomState {
                roomid: roomid@,
                base: base@,
                userid: userid@,
            },
            Task::RoomMessages { roomid, to, base } => TaskV::RoomMessages {
                roomid: roomid@,
                to: *to,
                base: base@,
            },
            Task::Thumbs { page, at, kind } => TaskV::Thumbs {
                page: parsed_views(page@),
                at: *at,
                kind: *kind,
            },
            Task::RoomMembers => TaskV::RoomMembers,
            Task::SendMsg => TaskV::SendMsg,
            Task::Protocols { server } => TaskV::Protocols { server: server@ },
            Task::RoomSearch => TaskV::RoomSearch,
        }
    }
}

/// What the engine asks to have done.  The outcome of a request, of a
/// download and of a drawing goes back to the engine with the task.
#[derive(Debug)]
pub enum Action {
    /// Send the request; the outcome is the answer's status and body.
    Http { request: Request, task: Task },
    /// Make sure that the file holds the media, downloading it unless
    /// the file is there already; the outcome is the file's path.
    Media { fetch: MediaFetch, task: Task },
    /// Draw the identicon into its file; the outcome is the file's path.
    Draw { icon: Identicon, task: Task },
    /// Hand the response to the caller.
    Respond(BKResponse),
    /// Send the path to the caller's channel with this number.
    Reply(u64, String),
}

/// The value of an [`Action`].
pub enum ActionV {
    Http { request: RequestV, task: TaskV },
    Media { fetch: MediaFetchV, task: TaskV },
    Draw { icon: IdenticonV, task: TaskV },
    Respond(BKResponseV),
    Reply(u64, Seq<char>),
}

impl View for Action {
    type V = ActionV;

    open spec fn view(&self) -> ActionV {
        match self {
            Action::Http { request, task } => ActionV::Http { request: request@, task: task@ },
            Action::Media { fetch, task } => ActionV::Media { fetch: fetch@, task: task@ },
            Action::Draw { icon, task } => ActionV::Draw { icon: icon@, task: task@ },
            Action::Respond(response) => ActionV::Respond(response@),
            Action::Reply(channel, path) => ActionV::Reply(*channel, path@),
        }
    }
}

/// The values of a list of actions.
pub open spec fn action_views(actions: Seq<Action>) -> Seq<ActionV> {
    Seq::new(actions.len(), |i: int| actions[i]@)
}

} // verus!
