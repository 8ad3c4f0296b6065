use guillotine::backend::{Backend, State};
use guillotine::command::{BKCommand, BKResponse};
use guillotine::error::Error;
use guillotine::protocol::{Action, Method, Outcome, PictureUse, Request, Task};

fn ok(body: &str) -> Outcome {
    Outcome::Http { status: 200, body: body.to_string() }
}

fn request_of(actions: Vec<Action>) -> (Request, Task) {
    let mut actions = actions;
    assert_eq!(actions.len(), 1);
    match actions.remove(0) {
        Action::Http { request, task } => (request, task),
        other => panic!("no request: {:?}", other),
    }
}

fn responses_of(actions: Vec<Action>) -> Vec<BKResponse> {
    actions
        .into_iter()
        .map(|a| match a {
            Action::Respond(r) => r,
            other => panic!("no response: {:?}", other),
        })
        .collect()
}

fn logged_in() -> Backend {
    let mut backend = Backend::new();
    let (_, actions) = backend.command_recv(Some(BKCommand::Guest("https://example.org".to_string())));
    let (_, task) = request_of(actions);
    backend.task_done_at(task, ok("{\"user_id\":\"@me:example.org\",\"access_token\":\"tok\"}"), 0);
    backend
}

fn text_message(id: &str, body: &str) -> String {
    format!(
        "{{\"type\":\"m.room.message\",\"event_id\":\"{}\",\"sender\":\"@a:x\",\"age\":0,\
          \"content\":{{\"msgtype\":\"m.text\",\"body\":\"{}\"}}}}",
        id, body
    )
}

#[test]
fn engine_starts_anonymous() {
    let backend = Backend::new();
    assert_eq!(backend.state, State::Anonymous);
    assert_eq!(backend.data.user_id, "Guest");
    assert_eq!(backend.data.access_token, "");
    assert_eq!(backend.data.server_url, "https://matrix.org");
    assert_eq!(backend.data.since, "");
    assert_eq!(backend.data.msgid, 1);
    assert_eq!(backend.get_base_url(), Ok("https://matrix.org/".to_string()));
}

#[test]
fn guest_sync_set_room_and_messages() {
    let mut backend = Backend::new();
    let (running, actions) =
        backend.command_recv(Some(BKCommand::Guest("https://example.org".to_string())));
    assert!(running);
    assert_eq!(backend.state, State::Authenticating);
    let (request, task) = request_of(actions);
    assert_eq!(request.method, Method::Post);
    assert_eq!(request.url, "https://example.org/_matrix/client/r0/register?kind=guest");
    assert_eq!(request.body, "null");

    let actions = backend.task_done_at(
        task,
        ok("{\"user_id\":\"@me:example.org\",\"access_token\":\"tok\"}"),
        0,
    );
    let responses = responses_of(actions);
    assert!(matches!(&responses[..], [BKResponse::Token(uid, tk)] if uid == "@me:example.org" && tk == "tok"));
    assert_eq!(backend.state, State::Authenticated { syncing: false });
    assert_eq!(backend.data.user_id, "@me:example.org");
    assert_eq!(backend.data.server_url, "https://example.org");

    let (running, actions) = backend.command_recv(Some(BKCommand::Sync));
    assert!(running);
    assert_eq!(backend.state, State::Authenticated { syncing: true });
    let (request, task) = request_of(actions);
    assert_eq!(request.method, Method::Get);
    assert!(request.url.starts_with(
        "https://example.org/_matrix/client/r0/sync?full_state=false&timeout=30000&access_token=tok&filter="
    ));
    assert!(matches!(&task, Task::Sync { initial: true, .. }));

    let body = "{\"next_batch\":\"s1\",\"rooms\":{\"join\":{\
        \"!a:example.org\":{\"state\":{\"events\":[\
            {\"type\":\"m.room.canonical_alias\",\"content\":{\"alias\":\"#a:example.org\"}},\
            {\"type\":\"m.room.name\",\"content\":{\"name\":\"Lobby\"}}]}},\
        \"!b:example.org\":{\"state\":{\"events\":[\
            {\"type\":\"m.room.member\",\"sender\":\"@me:example.org\",\"content\":{\"membership\":\"join\",\"displayname\":\"Me\"}},\
            {\"type\":\"m.room.member\",\"sender\":\"@a:example.org\",\"content\":{\"membership\":\"join\",\"displayname\":\"Alice\"}},\
            {\"type\":\"m.room.member\",\"sender\":\"@b:example.org\",\"content\":{\"membership\":\"join\",\"displayname\":\"Bob\"}}]}}},\
        \"leave\":{\"!c:example.org\":{}}}}";
    let responses = responses_of(backend.task_done_at(task, ok(body), 0));
    assert_eq!(responses.len(), 2);
    match &responses[0] {
        BKResponse::Rooms(rooms) => assert_eq!(
            rooms,
            &vec![
                ("!a:example.org".to_string(), "Lobby".to_string()),
                ("!b:example.org".to_string(), "Alice and Bob".to_string())
            ]
        ),
        other => panic!("no rooms: {:?}", other),
    }
    assert!(matches!(responses[1], BKResponse::Sync));
    assert_eq!(backend.data.since, "s1");
    assert_eq!(backend.state, State::Authenticated { syncing: false });

    let (running, actions) = backend.command_recv(Some(BKCommand::SetRoom("!a:example.org".to_string())));
    assert!(running);
    assert_eq!(actions.len(), 3);
    let urls: Vec<String> = actions
        .iter()
        .map(|a| match a {
            Action::Http { request, .. } => request.url.clone(),
            other => panic!("no request: {:?}", other),
        })
        .collect();
    assert_eq!(
        urls,
        vec![
            "https://example.org/_matrix/client/r0/rooms/!a:example.org/state/m.room.topic?access_token=tok",
            "https://example.org/_matrix/client/r0/rooms/!a:example.org/state/m.room.avatar?access_token=tok",
            "https://example.org/_matrix/client/r0/rooms/!a:example.org/members?access_token=tok",
        ]
    );
    assert_eq!(backend.state, State::Authenticated { syncing: false });

    let (_, actions) =
        backend.command_recv(Some(BKCommand::GetRoomMessages("!a:example.org".to_string())));
    let (request, task) = request_of(actions);
    assert_eq!(
        request.url,
        "https://example.org/_matrix/client/r0/rooms/!a:example.org/messages?access_token=tok&dir=b&limit=8"
    );
    let body = format!(
        "{{\"start\":\"t9\",\"end\":\"t6\",\"chunk\":[{},{},{}]}}",
        text_message("$3", "newest"),
        text_message("$2", "mid"),
        text_message("$1", "oldest")
    );
    let responses = responses_of(backend.task_done_at(task, ok(&body), 50));
    match &responses[..] {
        [BKResponse::RoomMessages(msgs)] => {
            let seen: Vec<(&str, &str)> =
                msgs.iter().map(|m| (m.room.as_str(), m.body.as_str())).collect();
            assert_eq!(
                seen,
                vec![
                    ("!a:example.org", "oldest"),
                    ("!a:example.org", "mid"),
                    ("!a:example.org", "newest")
                ]
            );
        },
        other => panic!("no messages: {:?}", other),
    }
}

#[test]
fn older_messages_are_asked_from_the_last_end() {
    let mut backend = logged_in();
    backend.data.msgs_batch_end = "stale".to_string();
    let (_, actions) = backend.command_recv(Some(BKCommand::GetRoomMessagesTo("!r:x".to_string())));
    let (request, task) = request_of(actions);
    assert!(request.url.ends_with("?access_token=tok&dir=b&limit=8&from=stale"));
    let responses =
        responses_of(backend.task_done_at(task, ok("{\"start\":\"stale\",\"end\":\"e1\",\"chunk\":[]}"), 0));
    assert!(matches!(&responses[..], [BKResponse::RoomMessagesTo(msgs)] if msgs.is_empty()));
    assert_eq!(backend.data.msgs_batch_start, "stale");
    assert_eq!(backend.data.msgs_batch_end, "e1");

    let (_, actions) = backend.command_recv(Some(BKCommand::GetRoomMessagesTo("!r:x".to_string())));
    let (request, task) = request_of(actions);
    assert_eq!(
        request.url,
        "https://example.org/_matrix/client/r0/rooms/!r:x/messages?access_token=tok&dir=b&limit=8&from=e1"
    );
    backend.task_done_at(task, ok("{\"end\":\"e2\",\"chunk\":[]}"), 0);
    let (_, actions) = backend.command_recv(Some(BKCommand::GetRoomMessagesTo("!r:x".to_string())));
    let (request, _) = request_of(actions);
    assert!(request.url.ends_with("&from=e2"));
}

#[test]
fn later_sync_carries_the_cursor_and_brings_messages() {
    let mut backend = logged_in();
    backend.command_recv(Some(BKCommand::Sync));
    backend.data.since = "s1".to_string();
    let (_, actions) = backend.command_recv(Some(BKCommand::Sync));
    let (request, task) = request_of(actions);
    assert_eq!(
        request.url,
        "https://example.org/_matrix/client/r0/sync?full_state=false&timeout=30000&access_token=tok&since=s1"
    );
    assert!(matches!(&task, Task::Sync { initial: false, .. }));
    let body = format!(
        "{{\"next_batch\":\"s2\",\"rooms\":{{\"join\":{{\"!r:x\":{{\"timeline\":{{\"events\":[{}]}}}}}}}}}}",
        text_message("$1", "hello")
    );
    let responses = responses_of(backend.task_done_at(task, ok(&body), 0));
    assert!(matches!(&responses[..], [BKResponse::RoomMessages(msgs), BKResponse::Sync] if msgs.len() == 1 && msgs[0].body == "hello"));
    assert_eq!(backend.data.since, "s2");
}

#[test]
fn thumbnails_are_fetched_one_by_one_before_the_page_is_handed_over() {
    let mut backend = logged_in();
    let (_, actions) = backend.command_recv(Some(BKCommand::GetRoomMessages("!r:x".to_string())));
    let (_, task) = request_of(actions);
    let image = |id: &str, thumb: &str| {
        format!(
            "{{\"type\":\"m.room.message\",\"event_id\":\"{}\",\"content\":{{\"msgtype\":\"m.image\",\
              \"url\":\"mxc://s/full\",\"info\":{{\"thumbnail_url\":\"{}\"}}}}}}",
            id, thumb
        )
    };
    let body = format!(
        "{{\"chunk\":[{},{},{}]}}",
        image("$3", "mxc://s/t3"),
        text_message("$2", "plain"),
        image("$1", "mxc://s/t1")
    );
    let mut actions = backend.task_done_at(task, ok(&body), 0);
    assert_eq!(actions.len(), 1);
    let task = match actions.remove(0) {
        Action::Media { fetch, task } => {
            assert_eq!(fetch.url, "https://example.org/_matrix/media/r0/download/s/t1");
            task
        },
        other => panic!("no download: {:?}", other),
    };
    let mut actions = backend.task_done_at(task, Outcome::File("/cache/t1".to_string()), 0);
    assert_eq!(actions.len(), 1);
    let task = match actions.remove(0) {
        Action::Media { fetch, task } => {
            assert_eq!(fetch.url, "https://example.org/_matrix/media/r0/download/s/t3");
            task
        },
        other => panic!("no download: {:?}", other),
    };
    let responses =
        responses_of(backend.task_done_at(task, Outcome::Failed(Error::NetworkError), 0));
    match &responses[..] {
        [BKResponse::RoomMessages(msgs)] => {
            let thumbs: Vec<(&str, &str)> =
                msgs.iter().map(|m| (m.id.as_str(), m.thumb.as_str())).collect();
            assert_eq!(thumbs, vec![("$1", "/cache/t1"), ("$2", ""), ("$3", "")]);
        },
        other => panic!("no messages: {:?}", other),
    }
}

#[test]
fn login_sends_password_and_resets_cursors() {
    let mut backend = logged_in();
    backend.data.since = "s9".to_string();
    backend.data.msgs_batch_end = "e9".to_string();
    backend.data.rooms_since = "r9".to_string();
    let (_, actions) = backend.command_recv(Some(BKCommand::Login(
        "alice".to_string(),
        "secret".to_string(),
        "https://example.org".to_string(),
    )));
    let (request, task) = request_of(actions);
    assert_eq!(request.url, "https://example.org/_matrix/client/r0/login");
    assert_eq!(
        request.body,
        "{\"password\":\"secret\",\"type\":\"m.login.password\",\"user\":\"alice\"}"
    );
    assert_eq!(backend.state, State::Authenticating);
    let responses = responses_of(backend.task_done_at(
        task,
        ok("{\"user_id\":\"@alice:example.org\",\"access_token\":\"t2\"}"),
        0,
    ));
    assert!(matches!(&responses[..], [BKResponse::Token(uid, tk)] if uid == "@alice:example.org" && tk == "t2"));
    assert_eq!(backend.data.since, "");
    assert_eq!(backend.data.msgs_batch_start, "");
    assert_eq!(backend.data.msgs_batch_end, "");
    assert_eq!(backend.data.rooms_since, "");
    assert_eq!(backend.state, State::Authenticated { syncing: false });
}

#[test]
fn register_sends_its_own_body() {
    let mut backend = Backend::new();
    let (_, actions) = backend.command_recv(Some(BKCommand::Register(
        "alice".to_string(),
        "secret".to_string(),
        "https://example.org".to_string(),
    )));
    let (request, _) = request_of(actions);
    assert_eq!(request.url, "https://example.org/_matrix/client/r0/register?kind=user");
    assert_eq!(
        request.body,
        "{\"auth\":{\"type\":\"m.login.password\"},\"bind_email\":false,\"password\":\"secret\",\"username\":\"alice\"}"
    );
}

#[test]
fn each_error_has_its_input() {
    // BackendError: a server that is no URL.
    let mut backend = Backend::new();
    let (running, actions) =
        backend.command_recv(Some(BKCommand::Login("a".to_string(), "b".to_string(), "nonsense".to_string())));
    assert!(running);
    assert!(matches!(&responses_of(actions)[..], [BKResponse::LoginError(Error::BackendError)]));
    assert_eq!(backend.state, State::Anonymous);
    assert_eq!(backend.data.server_url, "https://matrix.org");
    let (_, actions) = backend.command_recv(Some(BKCommand::Guest("nonsense".to_string())));
    assert!(matches!(&responses_of(actions)[..], [BKResponse::GuestLoginError(Error::BackendError)]));

    // AuthRejected: a refusal on login.
    let (_, actions) = backend.command_recv(Some(BKCommand::Login(
        "a".to_string(),
        "b".to_string(),
        "https://example.org".to_string(),
    )));
    let (_, task) = request_of(actions);
    let responses = responses_of(backend.task_done_at(
        task,
        Outcome::Http { status: 403, body: "{\"errcode\":\"M_FORBIDDEN\"}".to_string() },
        0,
    ));
    assert!(matches!(&responses[..], [BKResponse::LoginError(Error::AuthRejected)]));
    assert_eq!(backend.state, State::Anonymous);

    // MalformedResponse: a token answer without a token, and a body that is no JSON.
    let (_, actions) = backend.command_recv(Some(BKCommand::Guest("https://example.org".to_string())));
    let (_, task) = request_of(actions);
    let responses = responses_of(backend.task_done_at(task, ok("{\"user_id\":\"@g:x\"}"), 0));
    assert!(matches!(&responses[..], [BKResponse::GuestLoginError(Error::MalformedResponse)]));
    let (_, actions) = backend.command_recv(Some(BKCommand::GetUsername));
    let (_, task) = request_of(actions);
    let responses = responses_of(backend.task_done_at(task, ok("<html>"), 0));
    assert!(matches!(&responses[..], [BKResponse::UserNameError(Error::MalformedResponse)]));

    // NotFound: a missing room.
    let (_, actions) = backend.command_recv(Some(BKCommand::GetRoomMessages("!r:x".to_string())));
    let (_, task) = request_of(actions);
    let responses = responses_of(backend.task_done_at(
        task,
        Outcome::Http { status: 404, body: "{}".to_string() },
        0,
    ));
    assert!(matches!(&responses[..], [BKResponse::RoomMessagesError(Error::NotFound)]));

    // NetworkError: no answer at all.
    let (_, actions) = backend.command_recv(Some(BKCommand::Sync));
    let (_, task) = request_of(actions);
    let responses = responses_of(backend.task_done_at(task, Outcome::Failed(Error::NetworkError), 0));
    assert!(matches!(&responses[..], [BKResponse::SyncError(Error::NetworkError)]));
    assert_eq!(backend.data.since, "");

    // BackendError: a server error.
    let (_, actions) = backend.command_recv(Some(BKCommand::DirectoryProtocols));
    let (_, task) = request_of(actions);
    let responses = responses_of(backend.task_done_at(
        task,
        Outcome::Http { status: 500, body: "{}".to_string() },
        0,
    ));
    assert!(matches!(&responses[..], [BKResponse::DirectoryError(Error::BackendError)]));
}

#[test]
fn shut_down_is_final() {
    let mut backend = logged_in();
    let (running, actions) = backend.command_recv(Some(BKCommand::ShutDown));
    assert!(!running);
    assert!(actions.is_empty());
    assert_eq!(backend.state, State::ShuttingDown);
    let (running, actions) = backend.command_recv(Some(BKCommand::Sync));
    assert!(!running);
    assert!(actions.is_empty());
    assert_eq!(backend.state, State::ShuttingDown);

    let mut backend = Backend::new();
    let (running, actions) = backend.command_recv(None);
    assert!(!running);
    assert!(actions.is_empty());
    assert_eq!(backend.state, State::ShuttingDown);
}

#[test]
fn messages_are_numbered_upwards() {
    let mut backend = logged_in();
    let (_, actions) =
        backend.command_recv(Some(BKCommand::SendMsg("!r:x".to_string(), "hi \"you\"".to_string())));
    let (request, task) = request_of(actions);
    assert_eq!(request.method, Method::Put);
    assert_eq!(
        request.url,
        "https://example.org/_matrix/client/r0/rooms/!r:x/send/m.room.message/2?access_token=tok"
    );
    assert_eq!(request.body, "{\"body\":\"hi \\\"you\\\"\",\"msgtype\":\"m.text\"}");
    let responses = responses_of(backend.task_done_at(task, ok("{\"event_id\":\"$e\"}"), 0));
    assert!(matches!(&responses[..], [BKResponse::SendMsg]));
    let (_, actions) = backend.command_recv(Some(BKCommand::SendMsg("!r:x".to_string(), "again".to_string())));
    let (request, _) = request_of(actions);
    assert!(request.url.contains("/send/m.room.message/3?"));
    assert_eq!(backend.data.msgid, 3);

    backend.data.msgid = i32::MAX;
    let (running, actions) =
        backend.command_recv(Some(BKCommand::SendMsg("!r:x".to_string(), "last".to_string())));
    assert!(running);
    assert!(matches!(&responses_of(actions)[..], [BKResponse::SendMsgError(Error::BackendError)]));
    assert_eq!(backend.data.msgid, i32::MAX);
}

#[test]
fn directory_search_carries_its_filters() {
    let mut backend = logged_in();
    let (_, actions) = backend.command_recv(Some(BKCommand::DirectorySearch(
        String::new(),
        String::new(),
        false,
    )));
    let (request, task) = request_of(actions);
    assert_eq!(request.method, Method::Post);
    assert_eq!(request.url, "https://example.org/_matrix/client/r0/publicRooms?access_token=tok");
    assert_eq!(request.body, "{\"limit\":20}");
    let responses = responses_of(backend.task_done_at(
        task,
        ok("{\"next_batch\":\"page2\",\"chunk\":[{\"room_id\":\"!a:x\",\"name\":\"A\"}]}"),
        0,
    ));
    assert!(matches!(&responses[..], [BKResponse::DirectorySearch(rooms)] if rooms.len() == 1 && rooms[0].name == "A"));
    assert_eq!(backend.data.rooms_since, "page2");

    let (_, actions) = backend.command_recv(Some(BKCommand::DirectorySearch(
        "rust".to_string(),
        "irc-freenode".to_string(),
        true,
    )));
    let (request, _) = request_of(actions);
    assert_eq!(
        request.body,
        "{\"filter\":{\"generic_search_term\":\"rust\"},\"limit\":20,\"since\":\"page2\",\"third_party_instance_id\":\"irc-freenode\"}"
    );
}

#[test]
fn protocols_and_room_detail_are_answered() {
    let mut backend = logged_in();
    let (_, actions) = backend.command_recv(Some(BKCommand::DirectoryProtocols));
    let (request, task) = request_of(actions);
    assert_eq!(
        request.url,
        "https://example.org/_matrix/client/unstable/thirdparty/protocols?access_token=tok"
    );
    let responses = responses_of(backend.task_done_at(task, ok("{}"), 0));
    assert!(matches!(&responses[..], [BKResponse::DirectoryProtocols(list)] if list.len() == 1 && list[0].desc == "example.org"));

    let action = match backend.get_room_detail("!r:x".to_string(), "m.room.topic".to_string()) {
        Ok(a) => a,
        Err(e) => panic!("no request: {:?}", e),
    };
    let (_, task) = request_of(vec![action]);
    let responses = responses_of(backend.task_done_at(task, ok("{\"topic\":\"All things\"}"), 0));
    assert!(matches!(&responses[..], [BKResponse::RoomDetail(key, value)] if key == "m.room.topic" && value == "All things"));

    let (_, actions) = backend.command_recv(Some(BKCommand::GetUsername));
    let (request, task) = request_of(actions);
    assert_eq!(
        request.url,
        "https://example.org/_matrix/client/r0/profile/@me:example.org/displayname"
    );
    let responses = responses_of(backend.task_done_at(task, ok("{}"), 0));
    assert!(matches!(&responses[..], [BKResponse::Name(name)] if name == "@me:example.org"));
}

#[test]
fn avatar_falls_back_to_identicon() {
    let mut backend = logged_in();
    let (_, actions) = backend.command_recv(Some(BKCommand::GetAvatar));
    let (request, task) = request_of(actions);
    assert_eq!(request.url, "https://example.org/_matrix/client/r0/profile/@me:example.org");
    let mut actions = backend.task_done_at(task, ok("{\"displayname\":\"mel\"}"), 0);
    assert_eq!(actions.len(), 1);
    let task = match actions.remove(0) {
        Action::Draw { icon, task } => {
            assert_eq!(icon.name, "@me:example.org");
            assert_eq!(icon.glyph, "M");
            task
        },
        other => panic!("no drawing: {:?}", other),
    };
    let responses = responses_of(backend.task_done_at(task, Outcome::File("/cache/me".to_string()), 0));
    assert!(matches!(&responses[..], [BKResponse::Avatar(path)] if path == "/cache/me"));

    let (_, actions) = backend.command_recv(Some(BKCommand::GetAvatarAsync("@a:x".to_string(), 7)));
    let (_, task) = request_of(actions);
    assert!(matches!(&task, Task::Profile { then: PictureUse::Reply(7), .. }));
    let mut actions = backend.task_done_at(task, ok("{\"avatar_url\":\"mxc://s/a\"}"), 0);
    let task = match actions.remove(0) {
        Action::Media { fetch, task } => {
            assert_eq!(
                fetch.url,
                "https://example.org/_matrix/media/r0/thumbnail/s/a?width=64&height=64&method=scale"
            );
            task
        },
        other => panic!("no download: {:?}", other),
    };
    let actions = backend.task_done_at(task, Outcome::Failed(Error::NetworkError), 0);
    assert!(matches!(&actions[..], [Action::Reply(7, path)] if path.is_empty()));

    let (_, actions) = backend.command_recv(Some(BKCommand::GetThumbAsync("nonsense".to_string(), 9)));
    assert!(matches!(&actions[..], [Action::Reply(9, path)] if path.is_empty()));
}

#[test]
fn room_without_avatar_gets_one_from_its_state() {
    let mut backend = logged_in();
    let action = match backend.get_room_avatar("!r:x".to_string()) {
        Ok(a) => a,
        Err(e) => panic!("no request: {:?}", e),
    };
    let (_, task) = request_of(vec![action]);
    let actions = backend.task_done_at(task, Outcome::Http { status: 404, body: "{}".to_string() }, 0);
    let (request, task) = request_of(actions);
    assert_eq!(
        request.url,
        "https://example.org/_matrix/client/r0/rooms/!r:x/state?access_token=tok"
    );
    let state = "[{\"type\":\"m.room.member\",\"sender\":\"@a:x\",\"content\":{\"membership\":\"join\",\
                   \"displayname\":\"alice\",\"avatar_url\":\"mxc://s/alice\"}}]";
    let mut actions = backend.task_done_at(task, ok(state), 0);
    let task = match actions.remove(0) {
        Action::Media { fetch, task } => {
            assert!(fetch.url.contains("/thumbnail/s/alice?width=64&height=64"));
            task
        },
        other => panic!("no download: {:?}", other),
    };
    let mut actions = backend.task_done_at(task, Outcome::Failed(Error::NetworkError), 0);
    let task = match actions.remove(0) {
        Action::Draw { icon, task } => {
            assert_eq!(icon.name, "!r:x");
            assert_eq!(icon.glyph, "A");
            task
        },
        other => panic!("no drawing: {:?}", other),
    };
    let responses = responses_of(backend.task_done_at(task, Outcome::File("/cache/r".to_string()), 0));
    assert!(matches!(&responses[..], [BKResponse::RoomAvatar(path)] if path == "/cache/r"));
}

#[test]
fn present_moment_is_read_for_the_dates() {
    let mut backend = logged_in();
    let (_, actions) = backend.command_recv(Some(BKCommand::GetRoomMessages("!r:x".to_string())));
    let (_, task) = request_of(actions);
    let before = chrono::Utc::now().timestamp();
    let body = format!("{{\"chunk\":[{}]}}", text_message("$1", "now"));
    let responses = responses_of(backend.task_done(task, ok(&body)));
    let after = chrono::Utc::now().timestamp();
    match &responses[..] {
        [BKResponse::RoomMessages(msgs)] => assert!(before <= msgs[0].date && msgs[0].date <= after),
        other => panic!("no messages: {:?}", other),
    }
}

#[test]
fn page_that_cannot_be_read_leaves_the_cursors() {
    let mut backend = logged_in();
    backend.data.msgs_batch_start = "s0".to_string();
    backend.data.msgs_batch_end = "e0".to_string();
    let (_, actions) = backend.command_recv(Some(BKCommand::GetRoomMessagesTo("!r:x".to_string())));
    let (_, task) = request_of(actions);
    let responses = responses_of(backend.task_done_at(
        task,
        ok("{\"errcode\":\"M_FORBIDDEN\",\"start\":\"s1\",\"end\":\"e1\"}"),
        0,
    ));
    assert!(matches!(&responses[..], [BKResponse::RoomMessagesError(Error::MalformedResponse)]));
    assert_eq!(backend.data.msgs_batch_start, "s0");
    assert_eq!(backend.data.msgs_batch_end, "e0");

    let (_, actions) = backend.command_recv(Some(BKCommand::GetRoomMessagesTo("!r:x".to_string())));
    let (request, task) = request_of(actions);
    assert!(request.url.ends_with("&from=e0"));
    let responses =
        responses_of(backend.task_done_at(task, Outcome::Failed(Error::NetworkError), 0));
    assert!(matches!(&responses[..], [BKResponse::RoomMessagesError(Error::NetworkError)]));
    assert_eq!(backend.data.msgs_batch_end, "e0");
}

#[test]
fn sync_that_cannot_be_read_is_one_error_and_keeps_the_cursor() {
    let mut backend = logged_in();
    backend.data.since = "s1".to_string();
    for body in ["{\"next_batch\":\"s2\"}", "{}", "{\"next_batch\":\"s2\",\"rooms\":{\"join\":[]}}"] {
        let (_, actions) = backend.command_recv(Some(BKCommand::Sync));
        assert_eq!(backend.state, State::Authenticated { syncing: true });
        let (_, task) = request_of(actions);
        assert!(matches!(&task, Task::Sync { initial: false, .. }));
        let responses = responses_of(backend.task_done_at(task, ok(body), 0));
        assert!(matches!(&responses[..], [BKResponse::SyncError(Error::MalformedResponse)]));
        assert_eq!(backend.data.since, "s1");
        assert_eq!(backend.state, State::Authenticated { syncing: false });
    }

    backend.data.since = String::new();
    let (_, actions) = backend.command_recv(Some(BKCommand::Sync));
    let (_, task) = request_of(actions);
    assert!(matches!(&task, Task::Sync { initial: true, .. }));
    let responses = responses_of(backend.task_done_at(task, ok("{\"next_batch\":\"s2\"}"), 0));
    assert!(matches!(&responses[..], [BKResponse::SyncError(Error::MalformedResponse)]));
    assert_eq!(backend.data.since, "");

    let (_, actions) = backend.command_recv(Some(BKCommand::Sync));
    let (_, task) = request_of(actions);
    let responses = responses_of(backend.task_done_at(task, ok("not json"), 0));
    assert!(matches!(&responses[..], [BKResponse::SyncError(Error::MalformedResponse)]));
    assert_eq!(backend.data.since, "");
}

#[test]
fn directory_answer_that_cannot_be_read_leaves_the_cursor() {
    let mut backend = logged_in();
    backend.data.rooms_since = "page1".to_string();
    let (_, actions) = backend.command_recv(Some(BKCommand::DirectorySearch(
        String::new(),
        String::new(),
        true,
    )));
    let (request, task) = request_of(actions);
    assert_eq!(request.body, "{\"limit\":20,\"since\":\"page1\"}");
    let responses = responses_of(backend.task_done_at(task, ok("{\"next_batch\":\"page9\"}"), 0));
    assert!(matches!(&responses[..], [BKResponse::DirectoryError(Error::MalformedResponse)]));
    assert_eq!(backend.data.rooms_since, "page1");
}

#[test]
fn message_that_cannot_be_sent_takes_no_number() {
    let mut backend = logged_in();
    backend.data.server_url = "nonsense".to_string();
    let (running, actions) =
        backend.command_recv(Some(BKCommand::SendMsg("!r:x".to_string(), "hi".to_string())));
    assert!(running);
    assert!(matches!(&responses_of(actions)[..], [BKResponse::SendMsgError(Error::BackendError)]));
    assert_eq!(backend.data.msgid, 1);
    backend.data.server_url = "https://example.org".to_string();
    let (_, actions) =
        backend.command_recv(Some(BKCommand::SendMsg("!r:x".to_string(), "hi".to_string())));
    let (request, _) = request_of(actions);
    assert!(request.url.contains("/send/m.room.message/2?"));
    assert_eq!(backend.data.msgid, 2);
}
