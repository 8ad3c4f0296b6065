//! The commands that the engine takes and the responses that it gives.

use vstd::prelude::*;
use crate::error::Error;
use crate::room::pair_views;
use crate::types::{
    member_views, message_views, protocol_views, room_views, Member, MemberV, Message, MessageV,
    Protocol, ProtocolV, Room, RoomV,
};

verus! {

/// A command for the engine.
#[derive(Debug)]
pub enum BKCommand {
    /// Log in with a user name and a password on a server.
    Login(String, String, String),
    /// Register a user name with a password on a server.
    Register(String, String, String),
    /// Register as a guest on a server.
    Guest(String),
    GetUsername,
    GetAvatar,
    Sync,
    /// The latest messages of a room.
    GetRoomMessages(String),
    /// The messages of a room before those already fetched.
    GetRoomMessagesTo(String),
    /// The avatar of a user; the path is sent to the caller's channel
    /// with the given number.
    GetAvatarAsync(String, u64),
    /// The thumbnail of a piece of media; the path is sent to the
    /// caller's channel with the given number.
    GetThumbAsync(String, u64),
    /// Send a text to a room.
    SendMsg(String, String),
    SetRoom(String),
    ShutDown,
    DirectoryProtocols,
    /// Search the directory for a term, on a protocol; the flag asks for
    /// the page that follows the last one.
    DirectorySearch(String, String, bool),
}

/// What the engine tells its caller.
#[derive(Debug)]
pub enum BKResponse {
    /// The user id and the access token of the session.
    Token(String, String),
    Name(String),
    Avatar(String),
    Sync,
    /// The joined rooms, each once, with its id and its name.
    Rooms(Vec<(String, String)>),
    /// A key of a room's state and its value.
    RoomDetail(String, String),
    RoomAvatar(String),
    RoomMessages(Vec<Message>),
    RoomMessagesTo(Vec<Message>),
    RoomMembers(Vec<Member>),
    SendMsg,
    DirectoryProtocols(Vec<Protocol>),
    DirectorySearch(Vec<Room>),
    UserNameError(Error),
    AvatarError(Error),
    LoginError(Error),
    GuestLoginError(Error),
    SyncError(Error),
    RoomDetailError(Error),
    RoomAvatarError(Error),
    RoomMessagesError(Error),
    RoomMembersError(Error),
    SendMsgError(Error),
    SetRoomError(Error),
    CommandError(Error),
    DirectoryError(Error),
}

/// The value of a [`BKResponse`].
pub enum BKResponseV {
    Token(Seq<char>, Seq<char>),
    Name(Seq<char>),
    Avatar(Seq<char>),
    Sync,
    Rooms(Seq<(Seq<char>, Seq<char>)>),
    RoomDetail(Seq<char>, Seq<char>),
    RoomAvatar(Seq<char>),
    RoomMessages(Seq<MessageV>),
    RoomMessagesTo(Seq<MessageV>),
    RoomMembers(Seq<MemberV>),
    SendMsg,
    DirectoryProtocols(Seq<ProtocolV>),
    DirectorySearch(Seq<RoomV>),
    UserNameError(Error),
    AvatarError(Error),
    LoginError(Error),
    GuestLoginError(Error),
    SyncError(Error),
    RoomDetailError(Error),
    RoomAvatarError(Error),
    RoomMessagesError(Error),
    RoomMembersError(Error),
    SendMsgError(Error),
    SetRoomError(Error),
    CommandError(Error),
    DirectoryError(Error),
}

impl View for BKResponse {
    type V = BKResponseV;

    open spec fn view(&self) -> BKResponseV {
        match self {
            BKResponse::Token(uid, tk) => BKResponseV::Token(uid@, tk@),
            BKResponse::Name(name) => BKResponseV::Name(name@),
            BKResponse::Avatar(path) => BKResponseV::Avatar(path@),
            BKResponse::Sync => BKResponseV::Sync,
            BKResponse::Rooms(rooms) => BKResponseV::Rooms(pair_views(rooms@)),
            BKResponse::RoomDetail(key, value) => BKResponseV::RoomDetail(key@, value@),
            BKResponse::RoomAvatar(path) => BKResponseV::RoomAvatar(path@),
            BKResponse::RoomMessages(msgs) => BKResponseV::RoomMessages(message_views(msgs@)),
            BKResponse::RoomMessagesTo(msgs) => BKResponseV::RoomMessagesTo(
                message_views(msgs@),
            ),
            BKResponse::RoomMembers(members) => BKResponseV::RoomMembers(member_views(members@)),
            BKResponse::SendMsg => BKResponseV::SendMsg,
            BKResponse::DirectoryProtocols(list) => BKResponseV::DirectoryProtocols(
                protocol_views(list@),
            ),
            BKResponse::DirectorySearch(rooms) => BKResponseV::DirectorySearch(room_views(rooms@)),
            BKResponse::UserNameError(e) => BKResponseV::UserNameError(*e),
            BKResponse::AvatarError(e) => BKResponseV::AvatarError(*e),
            BKResponse::LoginError(e) => BKResponseV::LoginError(*e),
            BKResponse::GuestLoginError(e) => BKResponseV::GuestLoginError(*e),
            BKResponse::SyncError(e) => BKResponseV::SyncError(*e),
            BKResponse::RoomDetailError(e) => BKResponseV::RoomDetailError(*e),
            BKResponse::RoomAvatarError(e) => BKResponseV::RoomAvatarError(*e),
            BKResponse::RoomMessagesError(e) => BKResponseV::RoomMessagesError(*e),
            BKResponse::RoomMembersError(e) => BKResponseV::RoomMembersError(*e),
            BKResponse::SendMsgError(e) => BKResponseV::SendMsgError(*e),
            BKResponse::SetRoomError(e) => BKResponseV::SetRoomError(*e),
            BKResponse::CommandError(e) => BKResponseV::CommandError(*e),
            BKResponse::DirectoryError(e) => BKResponseV::DirectoryError(*e),
        }
    }
}

} // verus!
