//! The two entries of the engine: a command comes in, or the outcome of
//! an action comes back.

use vstd::prelude::*;
use crate::backend::{answer_of, read_answer, Backend, BackendDataV, State};
use crate::clock::now_seconds;
use crate::command::{BKCommand, BKResponse, BKResponseV};
use crate::error::Error;
use crate::protocol::{action_views, Action, ActionV, Outcome, PictureUse, Task, TaskV};
use crate::request::{
    choosing_room, entering, guest_step, login_step, messages_step, numbered, profile_step,
    protocols_step, register_step, search_step, send_attempt, set_room_steps, sync_step,
    syncing, thumb_step, username_step,
};
use crate::respond::{
    members_response, messages_actions, messages_data, one, picture_action, picture_done,
    profile_action, profile_done, protocols_done, protocols_response, room_avatar_action,
    room_avatar_done, room_detail_done, room_detail_response, room_members_done,
    room_state_action, room_state_done, search_data, search_response, send_done, send_response,
    sync_actions, sync_data, synced, thumbs_actions, thumbs_done, token_data, token_response,
    token_state, username_done, username_response,
};

verus! {

/// The session after the outcome of the action for `task`.
pub open spec fn step_data(data: BackendDataV, task: TaskV, outcome: Outcome) -> BackendDataV {
    let answer = answer_of(task is Token, outcome);
    match task {
        TaskV::Token { guest } => token_data(data, answer),
        TaskV::Sync { initial, base, userid } => sync_data(data, initial, userid, answer),
        TaskV::RoomMessages { roomid, to, base } => messages_data(data, answer),
        TaskV::RoomSearch => search_data(data, answer),
        _ => data,
    }
}

/// The state after the outcome of the action for `task`.
pub open spec fn step_state(state: State, task: TaskV, outcome: Outcome) -> State {
    match task {
        TaskV::Token { guest } => token_state(state, answer_of(true, outcome)),
        TaskV::Sync { initial, base, userid } => synced(state),
        _ => state,
    }
}

/// What is to be done after the outcome of the action for `task`, at
/// the moment `now`.
pub open spec fn step_actions(task: TaskV, outcome: Outcome, now: i64) -> Seq<ActionV> {
    let answer = answer_of(task is Token, outcome);
    match task {
        TaskV::Token { guest } => seq![ActionV::Respond(token_response(guest, answer))],
        TaskV::Username { uid } => seq![ActionV::Respond(username_response(uid, answer))],
        TaskV::Profile { base, uid, then } => seq![profile_action(base, uid, then, answer)],
        TaskV::Picture { then, fallback } => seq![picture_action(then, fallback, outcome)],
        TaskV::Sync { initial, base, userid } => sync_actions(initial, base, userid, answer, now),
        TaskV::RoomDetail { key } => seq![ActionV::Respond(room_detail_response(key, answer))],
        TaskV::RoomAvatar { roomid, base, token, userid } => seq![
            room_avatar_action(roomid, base, token, userid, answer),
        ],
        TaskV::RoomState { roomid, base, userid } => seq![
            room_state_action(roomid, base, userid, answer),
        ],
        TaskV::RoomMessages { roomid, to, base } => messages_actions(
            roomid,
            to,
            base,
            answer,
            now,
        ),
        TaskV::Thumbs { page, at, kind } => thumbs_actions(page, at, kind, outcome),
        TaskV::RoomMembers => seq![ActionV::Respond(members_response(answer))],
        TaskV::SendMsg => seq![ActionV::Respond(send_response(answer))],
        TaskV::Protocols { server } => seq![ActionV::Respond(protocols_response(server, answer))],
        TaskV::RoomSearch => seq![ActionV::Respond(search_response(answer))],
    }
}

impl Backend {
    /// Takes the outcome of the action for `task`, at the moment `now`,
    /// and says what is to be done next.
    pub fn task_done_at(&mut self, task: Task, outcome: Outcome, now: i64) -> (actions: Vec<Action>)
        ensures
            final(self).data@ == step_data(old(self).data@, task@, outcome),
            final(self).state == step_state(old(self).state, task@, outcome),
            action_views(actions@) == step_actions(task@, outcome, now),
    {
        match task {
            Task::Token { guest } => {
                let answer = read_answer(true, &outcome);
                one(Action::Respond(self.token_done(guest, answer)))
            },
            Task::Username { uid } => {
                let answer = read_answer(false, &outcome);
                one(Action::Respond(username_done(uid, answer)))
            },
            Task::Profile { base, uid, then } => {
                let answer = read_answer(false, &outcome);
                one(profile_done(base.as_str(), uid.as_str(), then, answer))
            },
            Task::Picture { then, fallback } => one(picture_done(then, fallback, outcome)),
            Task::Sync { initial, base, userid } => {
                let answer = read_answer(false, &outcome);
                self.sync_done(initial, base.as_str(), userid.as_str(), answer, now)
            },
            Task::RoomDetail { key } => {
                let answer = read_answer(false, &outcome);
                one(Action::Respond(room_detail_done(key, answer)))
            },
            Task::RoomAvatar { roomid, base, token, userid } => {
                let answer = read_answer(false, &outcome);
                one(
                    room_avatar_done(
                        roomid.as_str(),
                        base.as_str(),
                        token.as_str(),
                        userid.as_str(),
                        answer,
                    ),
                )
            },
            Task::RoomState { roomid, base, userid } => {
                let answer = read_answer(false, &outcome);
                one(room_state_done(roomid.as_str(), base.as_str(), userid.as_str(), answer))
            },
            Task::RoomMessages { roomid, to, base } => {
                let answer = read_answer(false, &outcome);
                self.room_messages_done(roomid.as_str(), to, base.as_str(), answer, now)
            },
            Task::Thumbs { page, at, kind } => thumbs_done(page, at, kind, outcome),
            Task::RoomMembers => {
                let answer = read_answer(false, &outcome);
                one(Action::Respond(room_members_done(answer)))
            },
            Task::SendMsg => {
                let answer = read_answer(false, &outcome);
                one(Action::Respond(send_done(answer)))
            },
            Task::Protocols { server } => {
                let answer = read_answer(false, &outcome);
                one(Action::Respond(protocols_done(server.as_str(), answer)))
            },
            Task::RoomSearch => {
                let answer = read_answer(false, &outcome);
                one(Action::Respond(self.search_done(answer)))
            },
        }
    }

    /// Takes the outcome of the action for `task` at the present moment.
    pub fn task_done(&mut self, task: Task, outcome: Outcome) -> (actions: Vec<Action>)
        ensures
            final(self).data@ == step_data(old(self).data@, task@, outcome),
            final(self).state == step_state(old(self).state, task@, outcome),
            exists|now: i64| action_views(actions@) == #[trigger] step_actions(task@, outcome, now),
    {
        let now = now_seconds();
        self.task_done_at(task, outcome, now)
    }
}

/// A text, or nothing where it is empty.
pub open spec fn nonempty(s: Seq<char>) -> Option<Seq<char>> {
    if s.len() == 0 {
        None
    } else {
        Some(s)
    }
}

/// The request with which a command begins, or the error with which it
/// fails at once.  `SetRoom` and `ShutDown` begin with no single request.
pub open spec fn command_step(data: BackendDataV, cmd: BKCommand) -> Result<ActionV, Error> {
    match cmd {
        BKCommand::Login(user, password, server) => login_step(user@, password@, server@),
        BKCommand::Register(user, password, server) => register_step(user@, password@, server@),
        BKCommand::Guest(server) => guest_step(server@),
        BKCommand::GetUsername => username_step(data),
        BKCommand::GetAvatar => profile_step(data.server_url, data.user_id, PictureUse::Avatar),
        BKCommand::Sync => sync_step(data),
        BKCommand::GetRoomMessages(room) => messages_step(data, room@, false),
        BKCommand::GetRoomMessagesTo(room) => messages_step(data, room@, true),
        BKCommand::GetAvatarAsync(uid, channel) => profile_step(
            data.server_url,
            uid@,
            PictureUse::Reply(channel),
        ),
        BKCommand::GetThumbAsync(media, channel) => thumb_step(data.server_url, media@, channel),
        BKCommand::SendMsg(room, msg) => send_attempt(data, room@, msg@),
        BKCommand::DirectoryProtocols => protocols_step(data),
        BKCommand::DirectorySearch(query, protocol, more) => search_step(
            data,
            nonempty(query@),
            nonempty(protocol@),
            more,
        ),
        BKCommand::SetRoom(room) => Err(Error::BackendError),
        BKCommand::ShutDown => Err(Error::BackendError),
    }
}

/// The response that tells the caller that a command has failed.
pub open spec fn command_failure(cmd: BKCommand, e: Error) -> BKResponseV {
    match cmd {
        BKCommand::Login(user, password, server) => BKResponseV::LoginError(e),
        BKCommand::Register(user, password, server) => BKResponseV::LoginError(e),
        BKCommand::Guest(server) => BKResponseV::GuestLoginError(e),
        BKCommand::GetUsername => BKResponseV::UserNameError(e),
        BKCommand::GetAvatar => BKResponseV::AvatarError(e),
        BKCommand::Sync => BKResponseV::SyncError(e),
        BKCommand::GetRoomMessages(room) => BKResponseV::RoomMessagesError(e),
        BKCommand::GetRoomMessagesTo(room) => BKResponseV::RoomMessagesError(e),
        BKCommand::GetAvatarAsync(uid, channel) => BKResponseV::CommandError(e),
        BKCommand::GetThumbAsync(media, channel) => BKResponseV::CommandError(e),
        BKCommand::SendMsg(room, msg) => BKResponseV::SendMsgError(e),
        BKCommand::SetRoom(room) => BKResponseV::SetRoomError(e),
        BKCommand::ShutDown => BKResponseV::CommandError(e),
        BKCommand::DirectoryProtocols => BKResponseV::DirectoryError(e),
        BKCommand::DirectorySearch(query, protocol, more) => BKResponseV::DirectoryError(e),
    }
}

/// What a command sets off: its request, or the response that tells of
/// its failure; for `SetRoom`, the requests about the room.
pub open spec fn command_actions(data: BackendDataV, cmd: BKCommand) -> Seq<ActionV> {
    match cmd {
        BKCommand::SetRoom(room) => set_room_steps(choosing_room(data), room@),
        BKCommand::ShutDown => Seq::empty(),
        _ => match command_step(data, cmd) {
            Ok(action) => seq![action],
            Err(e) => seq![ActionV::Respond(command_failure(cmd, e))],
        },
    }
}

/// The session after a command: a command that begins a session sets
/// the server, and a message takes the next number, once its request is
/// built; the choice of a room empties the cursors of the history.
pub open spec fn command_data(data: BackendDataV, cmd: BKCommand) -> BackendDataV {
    match cmd {
        BKCommand::Login(user, password, server) => if command_step(data, cmd) is Ok {
            BackendDataV { server_url: server@, ..data }
        } else {
            data
        },
        BKCommand::Register(user, password, server) => if command_step(data, cmd) is Ok {
            BackendDataV { server_url: server@, ..data }
        } else {
            data
        },
        BKCommand::Guest(server) => if command_step(data, cmd) is Ok {
            BackendDataV { server_url: server@, ..data }
        } else {
            data
        },
        BKCommand::SendMsg(room, msg) => if command_step(data, cmd) is Ok {
            numbered(data)
        } else {
            data
        },
        BKCommand::SetRoom(room) => choosing_room(data),
        _ => data,
    }
}

/// The state after a command: a session that begins is
/// `Authenticating`, a sync that begins makes an `Authenticated` engine
/// syncing, and `ShutDown` ends it all; no other command changes the
/// state.
pub open spec fn command_state(state: State, data: BackendDataV, cmd: BKCommand) -> State {
    match cmd {
        BKCommand::ShutDown => State::ShuttingDown,
        BKCommand::Login(user, password, server) => if command_step(data, cmd) is Ok {
            entering(state)
        } else {
            state
        },
        BKCommand::Register(user, password, server) => if command_step(data, cmd) is Ok {
            entering(state)
        } else {
            state
        },
        BKCommand::Guest(server) => if command_step(data, cmd) is Ok {
            entering(state)
        } else {
            state
        },
        BKCommand::Sync => if command_step(data, cmd) is Ok {
            syncing(state)
        } else {
            state
        },
        _ => state,
    }
}

/// Whether the engine goes on after `cmd`: not once it is shutting
/// down, not once the commands have run out, and not after `ShutDown`.
pub open spec fn runs_on(state: State, cmd: Option<BKCommand>) -> bool {
    &&& state != State::ShuttingDown
    &&& cmd matches Some(c)
    &&& !(c is ShutDown)
}

fn lift(step: Result<Action, Error>, failure: BKResponse) -> (actions: Vec<Action>)
    ensures
        action_views(actions@) == (match step {
            Ok(a) => seq![a@],
            Err(_) => seq![ActionV::Respond(failure@)],
        }),
{
    match step {
        Ok(a) => one(a),
        Err(_) => one(Action::Respond(failure)),
    }
}

fn pick(s: String) -> (r: Option<String>)
    ensures
        crate::request::chars_of_option(r) == nonempty(s@),
{
    if s.as_str().is_empty() {
        None
    } else {
        Some(s)
    }
}

fn error_in(step: &Result<Action, Error>) -> (e: Error)
    ensures
        step matches Err(err) ==> e == err,
{
    match step {
        Ok(_) => Error::BackendError,
        Err(e) => *e,
    }
}

impl Backend {
    /// Takes the next command, `None` once the caller has gone, and says
    /// whether the engine goes on and what is to be done.  An engine that
    /// is shutting down takes no command.  No command fails the engine:
    /// one that cannot begin is answered with its error.
    pub fn command_recv(&mut self, cmd: Option<BKCommand>) -> (r: (bool, Vec<Action>))
        ensures
            r.0 == runs_on(old(self).state, cmd),
            !r.0 ==> {
                &&& final(self).state == State::ShuttingDown
                &&& final(self).data == old(self).data
                &&& r.1@.len() == 0
            },
            r.0 ==> {
                &&& final(self).data@ == command_data(old(self).data@, cmd->0)
                &&& final(self).state == command_state(old(self).state, old(self).data@, cmd->0)
                &&& action_views(r.1@) == command_actions(old(self).data@, cmd->0)
            },
    {
        if self.state == State::ShuttingDown {
            return (false, Vec::new());
        }
        let cmd = match cmd {
            Some(cmd) => cmd,
            None => {
                self.state = State::ShuttingDown;
                return (false, Vec::new());
            },
        };
        let actions = match cmd {
            BKCommand::Login(user, password, server) => {
                let step = self.login(user, password, server);
                let e = error_in(&step);
                lift(step, BKResponse::LoginError(e))
            },
            BKCommand::Register(user, password, server) => {
                let step = self.register(user, password, server);
                let e = error_in(&step);
                lift(step, BKResponse::LoginError(e))
            },
            BKCommand::Guest(server) => {
                let step = self.guest(server);
                let e = error_in(&step);
                lift(step, BKResponse::GuestLoginError(e))
            },
            BKCommand::GetUsername => {
                let step = self.get_username();
                let e = error_in(&step);
                lift(step, BKResponse::UserNameError(e))
            },
            BKCommand::GetAvatar => {
                let step = self.get_avatar();
                let e = error_in(&step);
                lift(step, BKResponse::AvatarError(e))
            },
            BKCommand::Sync => {
                let step = self.sync();
                let e = error_in(&step);
                lift(step, BKResponse::SyncError(e))
            },
            BKCommand::GetRoomMessages(room) => {
                let step = self.get_room_messages(room, false);
                let e = error_in(&step);
                lift(step, BKResponse::RoomMessagesError(e))
            },
            BKCommand::GetRoomMessagesTo(room) => {
                let step = self.get_room_messages(room, true);
                let e = error_in(&step);
                lift(step, BKResponse::RoomMessagesError(e))
            },
            BKCommand::GetAvatarAsync(uid, channel) => {
                let step = self.get_avatar_async(uid.as_str(), channel);
                let e = error_in(&step);
                lift(step, BKResponse::CommandError(e))
            },
            BKCommand::GetThumbAsync(media, channel) => {
                let step = self.get_thumb_async(media, channel);
                let e = error_in(&step);
                lift(step, BKResponse::CommandError(e))
            },
            BKCommand::SendMsg(room, msg) => {
                let step = self.send_msg(room, msg);
                let e = error_in(&step);
                lift(step, BKResponse::SendMsgError(e))
            },
            BKCommand::SetRoom(room) => self.set_room(room),
            BKCommand::DirectoryProtocols => {
                let step = self.protocols();
                let e = error_in(&step);
                lift(step, BKResponse::DirectoryError(e))
            },
            BKCommand::DirectorySearch(query, protocol, more) => {
                let step = self.room_search(pick(query), pick(protocol), more);
                let e = error_in(&step);
                lift(step, BKResponse::DirectoryError(e))
            },
            BKCommand::ShutDown => {
                self.state = State::ShuttingDown;
                return (false, Vec::new());
            },
        };
        (true, actions)
    }
}

} // verus!
