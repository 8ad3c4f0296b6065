//! What holds of the engine across its steps.

use vstd::prelude::*;
use crate::backend::{answer_of, BackendDataV, State};
use crate::command::{BKCommand, BKResponseV};
use crate::engine::{
    command_actions, command_data, command_failure, command_state, command_step, runs_on,
    step_actions, step_data, step_state,
};
use crate::protocol::{ActionV, Outcome, TaskV};
use crate::request::{
    messages_query, numbered, send_attempt, send_step, sync_query, sync_step, token_query,
};
use crate::directory::rooms_listed;
use crate::error::Error;
use crate::json::JsonV;
use crate::respond::{brings_page, fresh_session, sync_advances, token_of};
use crate::timeline::{has_joined_rooms, page_messages, sync_messages};

verus! {

/// The cursor of the history is threaded: once an answer has brought a
/// page of messages, the next request for older messages asks from the
/// `end` of that answer, whatever cursor the session held before.
pub proof fn lemma_cursor_threads(
    data: BackendDataV,
    roomid: Seq<char>,
    to: bool,
    base: Seq<char>,
    outcome: Outcome,
)
    requires
        brings_page(answer_of(false, outcome)),
    ensures
        ({
            let r = answer_of(false, outcome)->Ok_0;
            let after = step_data(data, TaskV::RoomMessages { roomid, to, base }, outcome);
            &&& after.msgs_batch_end == r.member("end"@).text_or(""@)
            &&& after.access_token == data.access_token
            &&& messages_query(after, true) == token_query(data.access_token) + "&dir=b&limit=8"@
                + "&from="@ + r.member("end"@).text_or(""@)
        }),
{
}

/// The cursor of the sync is threaded: after an answer to a sync that
/// is not the first, from which the joined rooms can be read, the
/// session holds the `next_batch` of that answer, and the next sync
/// carries it where it is not empty.
pub proof fn lemma_sync_cursor_threads(
    data: BackendDataV,
    base: Seq<char>,
    userid: Seq<char>,
    outcome: Outcome,
)
    requires
        answer_of(false, outcome) matches Ok(r) && has_joined_rooms(r),
    ensures
        ({
            let r = answer_of(false, outcome)->Ok_0;
            let next = r.member("next_batch"@).text_or(""@);
            let after = step_data(data, TaskV::Sync { initial: false, base, userid }, outcome);
            &&& after.since == next
            &&& next.len() > 0 ==> sync_query(after)
                == "?full_state=false&timeout=30000&access_token="@ + data.access_token
                + "&since="@ + next
        }),
{
}

/// A session begins clean: the answer to a login or a registration that
/// brings a user id and a token leaves every cursor empty, so that the
/// sync that follows is the first of the session; and the engine is
/// `Authenticated` and not syncing, unless it is shutting down.
pub proof fn lemma_session_begins_clean(
    data: BackendDataV,
    state: State,
    guest: bool,
    outcome: Outcome,
)
    requires
        token_of(answer_of(true, outcome)) is Ok,
    ensures
        ({
            let (uid, token) = token_of(answer_of(true, outcome))->Ok_0;
            let after = step_data(data, TaskV::Token { guest }, outcome);
            &&& after == fresh_session(data, uid, token)
            &&& after.since.len() == 0
            &&& after.msgs_batch_start.len() == 0
            &&& after.msgs_batch_end.len() == 0
            &&& after.rooms_since.len() == 0
            &&& step_actions(TaskV::Token { guest }, outcome, 0) == seq![
                ActionV::Respond(BKResponseV::Token(uid, token)),
            ]
            &&& state != State::ShuttingDown ==> step_state(state, TaskV::Token { guest }, outcome)
                == (State::Authenticated { syncing: false })
            &&& sync_step(after) matches Ok(ActionV::Http { request, task }) ==> task
                matches TaskV::Sync { initial, .. } && initial
        }),
{
}

/// Shutting down is final: no outcome of an action brings the engine
/// back from it.
pub proof fn lemma_shutdown_is_final(task: TaskV, outcome: Outcome)
    ensures
        step_state(State::ShuttingDown, task, outcome) == State::ShuttingDown,
{
}

/// An engine that is not shutting down stops for `ShutDown` and for the
/// end of the commands, and for nothing else.
pub proof fn lemma_engine_stops_only_when_told(state: State, cmd: Option<BKCommand>)
    requires
        state != State::ShuttingDown,
    ensures
        runs_on(state, cmd) == (cmd matches Some(c) && !(c is ShutDown)),
{
}

/// Only a command that begins a session, a sync and `ShutDown` change
/// the state; every other command leaves it as it is.
pub proof fn lemma_commands_keep_state(state: State, data: BackendDataV, cmd: BKCommand)
    requires
        !(cmd is Login),
        !(cmd is Register),
        !(cmd is Guest),
        !(cmd is Sync),
        !(cmd is ShutDown),
    ensures
        command_state(state, data, cmd) == state,
{
}

/// No command goes unanswered: every command but `ShutDown` sets off at
/// least one action.
pub proof fn lemma_commands_are_answered(data: BackendDataV, cmd: BKCommand)
    requires
        !(cmd is ShutDown),
    ensures
        command_actions(data, cmd).len() >= 1,
{
}

/// The error response of the kind of a task, for the tasks that end with
/// a response of their own.
pub open spec fn failure_of(task: TaskV, e: Error) -> BKResponseV {
    match task {
        TaskV::Token { guest } => if guest {
            BKResponseV::GuestLoginError(e)
        } else {
            BKResponseV::LoginError(e)
        },
        TaskV::Username { uid } => BKResponseV::UserNameError(e),
        TaskV::Sync { initial, base, userid } => BKResponseV::SyncError(e),
        TaskV::RoomDetail { key } => BKResponseV::RoomDetailError(e),
        TaskV::RoomMessages { roomid, to, base } => BKResponseV::RoomMessagesError(e),
        TaskV::RoomMembers => BKResponseV::RoomMembersError(e),
        TaskV::SendMsg => BKResponseV::SendMsgError(e),
        TaskV::Protocols { server } => BKResponseV::DirectoryError(e),
        TaskV::RoomSearch => BKResponseV::DirectoryError(e),
        _ => BKResponseV::CommandError(e),
    }
}

/// Whether a task ends with a response of its own kind.  The tasks on
/// the way to a picture do not: they go on to a drawing where they can.
pub open spec fn answers_itself(task: TaskV) -> bool {
    !(task is Profile) && !(task is Picture) && !(task is RoomAvatar) && !(task is RoomState)
        && !(task is Thumbs)
}

/// A failed request is answered once: where no answer of the server can
/// be read from the outcome, exactly one response goes out, the error of
/// the task's own kind, and the session stays as it was.
pub proof fn lemma_failed_request_is_one_error(
    data: BackendDataV,
    task: TaskV,
    outcome: Outcome,
    now: i64,
)
    requires
        answers_itself(task),
        answer_of(task is Token, outcome) is Err,
    ensures
        step_actions(task, outcome, now) == seq![
            ActionV::Respond(failure_of(task, answer_of(task is Token, outcome)->Err_0)),
        ],
        step_data(data, task, outcome) == data,
{
}

/// A page that cannot be read is one error: an answer without a list of
/// events is answered with one error of the messages, malformed, and
/// leaves both cursors of the history where they were.
pub proof fn lemma_unread_page_is_one_error(
    data: BackendDataV,
    roomid: Seq<char>,
    to: bool,
    base: Seq<char>,
    outcome: Outcome,
    now: i64,
)
    requires
        answer_of(false, outcome) matches Ok(r) && page_messages(base, roomid, r, now) is Err,
    ensures
        step_actions(TaskV::RoomMessages { roomid, to, base }, outcome, now) == seq![
            ActionV::Respond(BKResponseV::RoomMessagesError(Error::MalformedResponse)),
        ],
        step_data(data, TaskV::RoomMessages { roomid, to, base }, outcome) == data,
{
}

/// A sync that cannot be read is one error: where the rooms cannot be
/// read from the answer, exactly one error of the sync goes out, without
/// the notice that the sync is done, and the cursor stays where it was.
pub proof fn lemma_unread_sync_is_one_error(
    data: BackendDataV,
    initial: bool,
    base: Seq<char>,
    userid: Seq<char>,
    outcome: Outcome,
    now: i64,
)
    requires
        !sync_advances(initial, userid, answer_of(false, outcome)),
    ensures
        ({
            let actions = step_actions(TaskV::Sync { initial, base, userid }, outcome, now);
            &&& actions.len() == 1
            &&& actions[0] matches ActionV::Respond(BKResponseV::SyncError(_))
            &&& step_data(data, TaskV::Sync { initial, base, userid }, outcome) == data
        }),
{
}

/// The cursor of a sync moves exactly where the sync is answered with
/// what it is for: a later sync moves it exactly where its messages can
/// be read.
pub proof fn lemma_sync_moves_with_messages(
    userid: Seq<char>,
    base: Seq<char>,
    r: JsonV,
    now: i64,
)
    ensures
        sync_advances(false, userid, Ok(r)) == (sync_messages(base, r, now) is Ok),
{
}

/// A directory answer that cannot be read is one error and leaves the
/// cursor of the directory where it was.
pub proof fn lemma_unread_directory_is_one_error(data: BackendDataV, outcome: Outcome, now: i64)
    requires
        answer_of(false, outcome) matches Ok(r) && rooms_listed(r) is Err,
    ensures
        step_actions(TaskV::RoomSearch, outcome, now) == seq![
            ActionV::Respond(BKResponseV::DirectoryError(Error::MalformedResponse)),
        ],
        step_data(data, TaskV::RoomSearch, outcome) == data,
{
}

/// A command that cannot begin is answered once: where its request
/// cannot be built, exactly one response goes out, the error of the
/// command's own kind, and no request; the session and the state stay as
/// they were.
pub proof fn lemma_failed_command_is_one_error(state: State, data: BackendDataV, cmd: BKCommand)
    requires
        !(cmd is ShutDown),
        !(cmd is SetRoom),
        command_step(data, cmd) is Err,
    ensures
        command_actions(data, cmd) == seq![
            ActionV::Respond(command_failure(cmd, command_step(data, cmd)->Err_0)),
        ],
        command_data(data, cmd) == data,
        command_state(state, data, cmd) == state,
{
}

/// Message numbers rise: every message that is sent has a number above
/// that of the message before.
pub proof fn lemma_message_numbers_rise(data: BackendDataV, room: Seq<char>, msg: Seq<char>)
    requires
        send_attempt(data, room, msg) is Ok,
    ensures
        numbered(data).msgid == data.msgid + 1,
        send_attempt(data, room, msg) == send_step(numbered(data), room, msg),
{
}

} // verus!
