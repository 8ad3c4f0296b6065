//! The engine: the session, and the steps that turn commands and the
//! outcomes of actions into further actions.

use vstd::prelude::*;
use crate::error::Error;
use crate::json::{json_decoded, Json, JsonV};
use crate::protocol::Outcome;
use crate::web::{absolute, url_parsed};

verus! {

/// The session.
#[derive(Debug)]
pub struct BackendData {
    pub user_id: String,
    pub access_token: String,
    pub server_url: String,
    /// Where the next sync goes on; empty before the first sync.
    pub since: String,
    /// The number of the last message sent.
    pub msgid: i32,
    pub msgs_batch_start: String,
    /// Where the next page of older messages begins.
    pub msgs_batch_end: String,
    /// Where the next page of the room directory begins.
    pub rooms_since: String,
}

/// The value of a [`BackendData`].
pub struct BackendDataV {
    pub user_id: Seq<char>,
    pub access_token: Seq<char>,
    pub server_url: Seq<char>,
    pub since: Seq<char>,
    pub msgid: i32,
    pub msgs_batch_start: Seq<char>,
    pub msgs_batch_end: Seq<char>,
    pub rooms_since: Seq<char>,
}

impl View for BackendData {
    type V = BackendDataV;

    open spec fn view(&self) -> BackendDataV {
        BackendDataV {
            user_id: self.user_id@,
            access_token: self.access_token@,
            server_url: self.server_url@,
            since: self.since@,
            msgid: self.msgid,
            msgs_batch_start: self.msgs_batch_start@,
            msgs_batch_end: self.msgs_batch_end@,
            rooms_since: self.rooms_since@,
        }
    }
}

/// Where the engine stands.
#[derive(Clone, Copy, Debug, PartialEq, Eq, Structural)]
pub enum State {
    /// No session yet.
    Anonymous,
    /// A login or a registration is under way.
    Authenticating,
    /// The session has its token; `syncing` while a sync is under way.
    Authenticated { syncing: bool },
    /// The engine takes no more commands.
    ShuttingDown,
}

/// The engine.
#[derive(Debug)]
pub struct Backend {
    pub data: BackendData,
    pub state: State,
}

/// The session at the start: the user `Guest` without a token, on
/// `https://matrix.org`, with every cursor empty and no message sent.
pub open spec fn initial_data() -> BackendDataV {
    BackendDataV {
        user_id: "Guest"@,
        access_token: Seq::empty(),
        server_url: "https://matrix.org"@,
        since: Seq::empty(),
        msgid: 1,
        msgs_batch_start: Seq::empty(),
        msgs_batch_end: Seq::empty(),
        rooms_since: Seq::empty(),
    }
}

/// Whether a status tells of success.
pub open spec fn is_success(status: u16) -> bool {
    200 <= status < 300
}

/// The error that a status other than success stands for: a refusal
/// where a login or a registration is answered with a status from 400 to
/// 499, a missing thing where anything else is answered with 404, a
/// failure of the backend in every other case.
pub open spec fn status_error(auth: bool, status: u16) -> Error {
    if auth && 400 <= status < 500 {
        Error::AuthRejected
    } else if !auth && status == 404 {
        Error::NotFound
    } else {
        Error::BackendError
    }
}

/// The error of an outcome that brings no answer of the server.
pub open spec fn outcome_error(auth: bool, outcome: Outcome) -> Option<Error> {
    match outcome {
        Outcome::Http { status, body } => if is_success(status) {
            None
        } else {
            Some(status_error(auth, status))
        },
        Outcome::File(_) => Some(Error::BackendError),
        Outcome::Failed(e) => Some(e),
    }
}

/// The document that an outcome brings, or the error that it stands
/// for: the decoded body of an answer with a status of success.
pub open spec fn answer_of(auth: bool, outcome: Outcome) -> Result<JsonV, Error> {
    match outcome_error(auth, outcome) {
        Some(e) => Err(e),
        None => match json_decoded(outcome->Http_body@) {
            Some(doc) => Ok(doc),
            None => Err(Error::MalformedResponse),
        },
    }
}

/// Reads the outcome of a request.
pub fn read_answer(auth: bool, outcome: &Outcome) -> (answer: Result<Json, Error>)
    ensures
        match answer {
            Ok(doc) => answer_of(auth, *outcome) == Ok::<JsonV, Error>(doc@),
            Err(e) => answer_of(auth, *outcome) == Err::<JsonV, Error>(e),
        },
{
    match outcome {
        Outcome::Http { status, body } => {
            if 200 <= *status && *status < 300 {
                Json::parse(body.as_str())
            } else if auth && 400 <= *status && *status < 500 {
                Err(Error::AuthRejected)
            } else if !auth && *status == 404 {
                Err(Error::NotFound)
            } else {
                Err(Error::BackendError)
            }
        },
        Outcome::File(_) => Err(Error::BackendError),
        Outcome::Failed(e) => Err(*e),
    }
}

impl Backend {
    /// The engine at its start.
    pub fn new() -> (backend: Backend)
        ensures
            backend.data@ == initial_data(),
            backend.state == State::Anonymous,
    {
        Backend {
            data: BackendData {
                user_id: "Guest".to_owned(),
                access_token: String::new(),
                server_url: "https://matrix.org".to_owned(),
                since: String::new(),
                msgid: 1,
                msgs_batch_start: String::new(),
                msgs_batch_end: String::new(),
                rooms_since: String::new(),
            },
            state: State::Anonymous,
        }
    }

    /// The URL of the session's server, in its normal form.
    pub fn get_base_url(&self) -> (r: Result<String, Error>)
        ensures
            match r {
                Ok(u) => url_parsed(self.data.server_url@) == Some(u@),
                Err(e) => e == Error::BackendError && url_parsed(self.data.server_url@) is None,
            },
    {
        absolute(self.data.server_url.as_str())
    }
}

} // verus!
