//! Plain data handed to the caller: messages, members, rooms, protocols.

use vstd::prelude::*;

verus! {

/// One message of a room's timeline.
#[derive(Debug)]
pub struct Message {
    pub sender: String,
    pub mtype: String,
    pub body: String,
    /// When the message was sent, in seconds since the Unix epoch.
    pub date: i64,
    pub room: String,
    /// The local file that holds the thumbnail, empty where there is none.
    pub thumb: String,
    pub url: String,
    pub id: String,
}

/// The value of a [`Message`].
pub struct MessageV {
    pub sender: Seq<char>,
    pub mtype: Seq<char>,
    pub body: Seq<char>,
    pub date: i64,
    pub room: Seq<char>,
    pub thumb: Seq<char>,
    pub url: Seq<char>,
    pub id: Seq<char>,
}

impl View for Message {
    type V = MessageV;

    open spec fn view(&self) -> MessageV {
        MessageV {
            sender: self.sender@,
            mtype: self.mtype@,
            body: self.body@,
            date: self.date,
            room: self.room@,
            thumb: self.thumb@,
            url: self.url@,
            id: self.id@,
        }
    }
}

impl Clone for Message {
    fn clone(&self) -> (copy: Message)
        ensures
            copy@ == self@,
    {
        Message {
            sender: self.sender.clone(),
            mtype: self.mtype.clone(),
            body: self.body.clone(),
            date: self.date,
            room: self.room.clone(),
            thumb: self.thumb.clone(),
            url: self.url.clone(),
            id: self.id.clone(),
        }
    }
}

/// The values of a list of messages.
pub open spec fn message_views(msgs: Seq<Message>) -> Seq<MessageV> {
    Seq::new(msgs.len(), |i: int| msgs[i]@)
}

/// A member of a room.
#[derive(Debug)]
pub struct Member {
    pub alias: String,
    pub uid: String,
    pub avatar: String,
}

/// The value of a [`Member`].
pub struct MemberV {
    pub alias: Seq<char>,
    pub uid: Seq<char>,
    pub avatar: Seq<char>,
}

impl MemberV {
    /// Whether this is a member that can be shown: one with a user id.
    pub open spec fn is_valid(self) -> bool {
        self.uid.len() > 0
    }

    /// The name shown for a member: the display name, or the user id
    /// where no display name is set.
    pub open spec fn shown(self) -> Seq<char> {
        if self.alias.len() == 0 {
            self.uid
        } else {
            self.alias
        }
    }
}

impl View for Member {
    type V = MemberV;

    open spec fn view(&self) -> MemberV {
        MemberV { alias: self.alias@, uid: self.uid@, avatar: self.avatar@ }
    }
}

impl Clone for Member {
    fn clone(&self) -> (copy: Member)
        ensures
            copy@ == self@,
    {
        Member { alias: self.alias.clone(), uid: self.uid.clone(), avatar: self.avatar.clone() }
    }
}

/// The values of a list of members.
pub open spec fn member_views(members: Seq<Member>) -> Seq<MemberV> {
    Seq::new(members.len(), |i: int| members[i]@)
}

impl Member {
    /// The name shown for this member: the user id where there is no
    /// display name.  Of a valid member it is never empty.
    pub fn get_alias(&self) -> (name: String)
        ensures
            name@ == self@.shown(),
            self.alias@.len() == 0 ==> name@ == self.uid@,
            self@.is_valid() ==> name@.len() > 0,
    {
        if self.alias.as_str().is_empty() {
            self.uid.clone()
        } else {
            self.alias.clone()
        }
    }
}

/// One entry of the room directory's list of protocols.
#[derive(Debug)]
pub struct Protocol {
    pub id: String,
    pub desc: String,
}

/// The value of a [`Protocol`].
pub struct ProtocolV {
    pub id: Seq<char>,
    pub desc: Seq<char>,
}

impl View for Protocol {
    type V = ProtocolV;

    open spec fn view(&self) -> ProtocolV {
        ProtocolV { id: self.id@, desc: self.desc@ }
    }
}

/// The values of a list of protocols.
pub open spec fn protocol_views(protocols: Seq<Protocol>) -> Seq<ProtocolV> {
    Seq::new(protocols.len(), |i: int| protocols[i]@)
}

/// A room, as the directory or a sync describes it.
#[derive(Debug)]
pub struct Room {
    pub id: String,
    pub avatar: String,
    pub name: String,
    pub topic: String,
    pub alias: String,
    pub guest_can_join: bool,
    pub world_readable: bool,
    pub members: i32,
    pub notifications: i32,
}

/// The value of a [`Room`].
pub struct RoomV {
    pub id: Seq<char>,
    pub avatar: Seq<char>,
    pub name: Seq<char>,
    pub topic: Seq<char>,
    pub alias: Seq<char>,
    pub guest_can_join: bool,
    pub world_readable: bool,
    pub members: i32,
    pub notifications: i32,
}

impl View for Room {
    type V = RoomV;

    open spec fn view(&self) -> RoomV {
        RoomV {
            id: self.id@,
            avatar: self.avatar@,
            name: self.name@,
            topic: self.topic@,
            alias: self.alias@,
            guest_can_join: self.guest_can_join,
            world_readable: self.world_readable,
            members: self.members,
            notifications: self.notifications,
        }
    }
}

/// The values of a list of rooms.
pub open spec fn room_views(rooms: Seq<Room>) -> Seq<RoomV> {
    Seq::new(rooms.len(), |i: int| rooms[i]@)
}

impl Room {
    /// A room of which only the id and the name are known: open to
    /// guests, readable by all, without members or notifications.
    pub fn new(id: String, name: String) -> (room: Room)
        ensures
            room@ == (RoomV {
                id: id@,
                avatar: Seq::empty(),
                name: name@,
                topic: Seq::empty(),
                alias: Seq::empty(),
                guest_can_join: true,
                world_readable: true,
                members: 0,
                notifications: 0,
            }),
    {
        Room {
            id,
            name,
            avatar: String::new(),
            topic: String::new(),
            alias: String::new(),
            guest_can_join: true,
            world_readable: true,
            members: 0,
            notifications: 0,
        }
    }
}

impl Clone for Room {
    fn clone(&self) -> (copy: Room)
        ensures
            copy@ == self@,
    {
        Room {
            id: self.id.clone(),
            name: self.name.clone(),
            avatar: self.avatar.clone(),
            topic: self.topic.clone(),
            alias: self.alias.clone(),
            guest_can_join: self.guest_can_join,
            world_readable: self.world_readable,
            members: self.members,
            notifications: self.notifications,
        }
    }
}

} // verus!
