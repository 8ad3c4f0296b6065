//! The picture that stands for a room.

use vstd::prelude::*;
use crate::error::Error;
use crate::icon::{draw_identicon, identicon_of, Identicon, IdenticonV};
use crate::json::{Json, JsonV};
use crate::media::{dw_media, media_fetch, MediaFetch, MediaFetchV};
use crate::room::{calculate_room_name, current_members, name_of_events, others};

verus! {

/// How the picture of a room is had.
#[derive(Debug)]
pub enum AvatarPlan {
    /// Fetch this thumbnail; where that fails, draw the identicon.
    Thumb { fetch: MediaFetch, fallback: Identicon },
    /// Draw this identicon.
    Icon(Identicon),
}

/// The value of an [`AvatarPlan`].
pub enum AvatarPlanV {
    Thumb { fetch: MediaFetchV, fallback: IdenticonV },
    Icon(IdenticonV),
}

impl View for AvatarPlan {
    type V = AvatarPlanV;

    open spec fn view(&self) -> AvatarPlanV {
        match self {
            AvatarPlan::Thumb { fetch, fallback } => AvatarPlanV::Thumb {
                fetch: fetch@,
                fallback: fallback@,
            },
            AvatarPlan::Icon(icon) => AvatarPlanV::Icon(icon@),
        }
    }
}

/// The avatar that a membership event gives, empty where it gives none.
pub open spec fn avatar_url(ev: JsonV) -> Seq<char> {
    ev.member("content"@).member("avatar_url"@).text_or(""@)
}

/// The picture of a room without an avatar of its own: where exactly one
/// other member has joined, the thumbnail of that member's avatar, 64 by
/// 64; in every other case, and in place of a thumbnail that cannot be
/// fetched, the identicon of the room's id and name.
pub open spec fn avatar_of_events(
    base: Seq<char>,
    events: Seq<JsonV>,
    me: Seq<char>,
    roomid: Seq<char>,
) -> AvatarPlanV {
    let icon = identicon_of(roomid, name_of_events(events, me));
    let members = others(events, me);
    if members.len() == 1 {
        match media_fetch(base, avatar_url(members[0]), true, None, 64, 64) {
            Ok(fetch) => AvatarPlanV::Thumb { fetch, fallback: icon },
            Err(_) => AvatarPlanV::Icon(icon),
        }
    } else {
        AvatarPlanV::Icon(icon)
    }
}

/// The picture of the room with the state `st`; a state that is no array
/// of events is malformed.
pub open spec fn room_avatar(base: Seq<char>, st: JsonV, me: Seq<char>, roomid: Seq<char>) -> Result<
    AvatarPlanV,
    Error,
> {
    match st.items() {
        Some(events) => Ok(avatar_of_events(base, events, me, roomid)),
        None => Err(Error::MalformedResponse),
    }
}

/// Plans the picture of the room `roomid` from its state `st`, for a
/// room that has no avatar of its own.
pub fn get_room_avatar(base: &str, st: &Json, userid: &str, roomid: &str) -> (plan: Result<
    AvatarPlan,
    Error,
>)
    ensures
        match plan {
            Ok(p) => room_avatar(base@, st@, userid@, roomid@) == Ok::<AvatarPlanV, Error>(p@),
            Err(e) => room_avatar(base@, st@, userid@, roomid@) == Err::<AvatarPlanV, Error>(e),
        },
{
    let events = match st.as_array() {
        Some(events) => events,
        None => {
            return Err(Error::MalformedResponse);
        },
    };
    let name = match calculate_room_name(st, userid) {
        Ok(name) => name,
        Err(e) => {
            return Err(e);
        },
    };
    let icon = draw_identicon(roomid, name.as_str());
    let found = current_members(events, Some(userid));
    if found.len() == 1 {
        let source = events[found[0]].string_in("content", "avatar_url", "");
        match dw_media(base, source.as_str(), true, None, 64, 64) {
            Ok(fetch) => Ok(AvatarPlan::Thumb { fetch, fallback: icon }),
            Err(_) => Ok(AvatarPlan::Icon(icon)),
        }
    } else {
        Ok(AvatarPlan::Icon(icon))
    }
}

} // verus!
