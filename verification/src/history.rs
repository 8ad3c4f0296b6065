//! The messages of the room that the caller looks at, in the order of
//! time.

use vstd::prelude::*;
use crate::text::str_eq;
use crate::types::{message_views, Message, MessageV};

verus! {

/// The messages shown for one room, oldest first.
#[derive(Debug)]
pub struct History {
    pub room: String,
    pub msgs: Vec<Message>,
}

/// The messages of the room `room` among the first `upto` of `page`, in
/// their order.
pub open spec fn of_room(page: Seq<MessageV>, room: Seq<char>, upto: int) -> Seq<MessageV>
    decreases upto,
{
    if upto <= 0 {
        Seq::empty()
    } else if page[upto - 1].room == room {
        of_room(page, room, upto - 1).push(page[upto - 1])
    } else {
        of_room(page, room, upto - 1)
    }
}

/// The messages of the room `room` among `page[from..]`, in their order.
pub open spec fn of_room_from(page: Seq<MessageV>, room: Seq<char>, from: int) -> Seq<MessageV>
    decreases page.len() - from,
{
    if from < 0 || from >= page.len() {
        Seq::empty()
    } else if page[from].room == room {
        seq![page[from]] + of_room_from(page, room, from + 1)
    } else {
        of_room_from(page, room, from + 1)
    }
}

/// Counting from the front and counting from the back give the same
/// messages.
pub proof fn lemma_of_room_both_ways(page: Seq<MessageV>, room: Seq<char>, from: int)
    requires
        0 <= from <= page.len(),
    ensures
        of_room(page, room, from) + of_room_from(page, room, from) == of_room(
            page,
            room,
            page.len() as int,
        ),
    decreases page.len() - from,
{
    if from == page.len() {
        assert(of_room(page, room, from) + Seq::<MessageV>::empty() =~= of_room(page, room, from));
    } else {
        lemma_of_room_both_ways(page, room, from + 1);
        if page[from].room == room {
            assert(of_room(page, room, from).push(page[from]) + of_room_from(page, room, from + 1)
                =~= of_room(page, room, from) + (seq![page[from]] + of_room_from(
                page,
                room,
                from + 1,
            )));
        }
    }
}

impl History {
    /// The empty history of the room `room`.
    pub fn new(room: String) -> (history: History)
        ensures
            history.room == room,
            history.msgs@.len() == 0,
    {
        History { room, msgs: Vec::new() }
    }

    /// Takes a page of new messages, which comes oldest first: each
    /// message of this room goes to the end.
    pub fn extend(&mut self, page: &Vec<Message>)
        ensures
            final(self).room == old(self).room,
            message_views(final(self).msgs@) == message_views(old(self).msgs@) + of_room(
                message_views(page@),
                old(self).room@,
                page@.len() as int,
            ),
    {
        let ghost start = message_views(self.msgs@);
        let mut i: usize = 0;
        assert(message_views(self.msgs@) =~= start + Seq::<MessageV>::empty());
        while i < page.len()
            invariant
                i <= page@.len(),
                self.room == old(self).room,
                message_views(self.msgs@) == start + of_room(
                    message_views(page@),
                    self.room@,
                    i as int,
                ),
            decreases page@.len() - i,
        {
            if str_eq(page[i].room.as_str(), self.room.as_str()) {
                let ghost before = message_views(self.msgs@);
                let msg = page[i].clone();
                self.msgs.push(msg);
                assert(message_views(self.msgs@) =~= before.push(msg@));
                assert(before.push(msg@) =~= start + of_room(
                    message_views(page@),
                    self.room@,
                    i as int,
                ).push(msg@));
            }
            i = i + 1;
        }
    }

    /// Takes a page of older messages, which comes oldest first as every
    /// page does: the page is walked from its last message to its first,
    /// and each message of this room is put on top.  The two reversals
    /// cancel: the older messages stand before the others, in the order
    /// of time.
    pub fn prepend(&mut self, page: &Vec<Message>)
        ensures
            final(self).room == old(self).room,
            message_views(final(self).msgs@) == of_room(
                message_views(page@),
                old(self).room@,
                page@.len() as int,
            ) + message_views(old(self).msgs@),
    {
        let ghost start = message_views(self.msgs@);
        let n = page.len();
        let mut i: usize = n;
        assert(message_views(self.msgs@) =~= Seq::<MessageV>::empty() + start);
        while i > 0
            invariant
                n == page@.len(),
                i <= n,
                self.room == old(self).room,
                message_views(self.msgs@) == of_room_from(
                    message_views(page@),
                    self.room@,
                    i as int,
                ) + start,
            decreases i,
        {
            i = i - 1;
            if str_eq(page[i].room.as_str(), self.room.as_str()) {
                let ghost before = message_views(self.msgs@);
                let msg = page[i].clone();
                self.msgs.insert(0, msg);
                assert(message_views(self.msgs@) =~= seq![msg@] + before);
                assert(seq![msg@] + before =~= (seq![msg@] + of_room_from(
                    message_views(page@),
                    self.room@,
                    i + 1,
                )) + start);
            }
        }
        proof {
            lemma_of_room_both_ways(message_views(page@), self.room@, 0);
            assert(of_room(message_views(page@), self.room@, 0) + of_room_from(
                message_views(page@),
                self.room@,
                0,
            ) =~= of_room_from(message_views(page@), self.room@, 0));
        }
    }
}

} // verus!
