//! Rooms and their members: the decisions of the room endpoints.

use vstd::prelude::*;
use crate::roles::{MemberRole, RoomVisibility};
use crate::error::{AppError, ErrorView, not_found};
use crate::minting::RoomInfo;

verus! {

/// `POST /v1/rooms`.
pub struct CreateRoomRequest {
    pub name: String,
    pub namespace_prefix: String,
    pub visibility: Option<RoomVisibility>,
    pub creator_id: Option<u128>,
}

/// A room to be written.
pub struct NewRoom {
    pub name: String,
    pub namespace_prefix: String,
    pub visibility: RoomVisibility,
}

/// A member to be added after a room is created.
pub struct CreatorMembership {
    pub user: u128,
    pub role: MemberRole,
}

/// The room a creation request writes (public unless it says otherwise), and
/// its creator, if named, joining as an admin.
pub fn plan_room(request: CreateRoomRequest) -> (r: (NewRoom, Option<CreatorMembership>))
    ensures
        r.0.name@ == request.name@,
        r.0.namespace_prefix@ == request.namespace_prefix@,
        r.0.visibility == match request.visibility {
            Some(v) => v,
            None => RoomVisibility::Public,
        },
        match request.creator_id {
            Some(u) => r.1 matches Some(m) && m.user == u && m.role == MemberRole::Admin,
            None => r.1 is None,
        },
{
    let visibility = match request.visibility {
        Some(v) => v,
        None => RoomVisibility::Public,
    };
    let creator = match request.creator_id {
        Some(u) => Some(CreatorMembership { user: u, role: MemberRole::Admin }),
        None => None,
    };
    (NewRoom { name: request.name, namespace_prefix: request.namespace_prefix, visibility }, creator)
}

/// A room that was looked up, or `room not found`.
pub fn found_room(room: Option<RoomInfo>) -> (r: Result<RoomInfo, AppError>)
    ensures
        match room {
            Some(x) => r == Ok::<RoomInfo, AppError>(x),
            None => r matches Err(e) && e@ == ErrorView::NotFound("room not found"@),
        },
{
    match room {
        Some(x) => Ok(x),
        None => Err(not_found("room not found")),
    }
}

/// The outcome of removing a member: `member not found` when nobody was removed.
pub fn removal_outcome(removed: bool) -> (r: Result<(), AppError>)
    ensures
        removed ==> r is Ok,
        !removed ==> (r matches Err(e) && e@ == ErrorView::NotFound("member not found"@)),
{
    if removed {
        Ok(())
    } else {
        Err(not_found("member not found"))
    }
}

} // verus!
