//! Roles and room visibility, and the rules that decide which token a caller gets.

use vstd::prelude::*;
use crate::error::{AppError, ErrorView, forbidden};

verus! {

/// What a minted token lets its holder do in a room.
#[derive(Debug, Clone, Copy, PartialEq, Eq, Structural)]
pub enum TokenRole {
    Publisher,
    Subscriber,
    PubSub,
}

/// A user's standing in a room.
#[derive(Debug, Clone, Copy, PartialEq, Eq, Structural)]
pub enum MemberRole {
    Admin,
    Publisher,
    Subscriber,
}

/// Who may enter a room.
#[derive(Debug, Clone, Copy, PartialEq, Eq, Structural)]
pub enum RoomVisibility {
    Public,
    Authenticated,
    Private,
}

/// Whether a member with `membership` may hold a token with `role`.
pub open spec fn permits(membership: MemberRole, role: TokenRole) -> bool {
    match membership {
        MemberRole::Admin => true,
        MemberRole::Publisher => role != TokenRole::Subscriber,
        MemberRole::Subscriber => role == TokenRole::Subscriber,
    }
}

/// The role a member gets when asking for none.
pub open spec fn default_token_role(membership: MemberRole) -> TokenRole {
    match membership {
        MemberRole::Admin => TokenRole::PubSub,
        MemberRole::Publisher => TokenRole::Publisher,
        MemberRole::Subscriber => TokenRole::Subscriber,
    }
}

/// The answer to a member asking for a token role.
pub open spec fn resolve_role_spec(requested: Option<TokenRole>, membership: MemberRole) -> Result<
    TokenRole,
    ErrorView,
> {
    let role = match requested {
        Some(r) => r,
        None => default_token_role(membership),
    };
    match membership {
        MemberRole::Admin => Ok(role),
        MemberRole::Publisher => if role == TokenRole::Subscriber {
            Err(ErrorView::Forbidden("publisher members cannot request subscriber-only tokens"@))
        } else {
            Ok(role)
        },
        MemberRole::Subscriber => if role != TokenRole::Subscriber {
            Err(ErrorView::Forbidden("subscriber members can only get subscriber tokens"@))
        } else {
            Ok(role)
        },
    }
}

/// A result as a view.
pub open spec fn role_result_view(r: Result<TokenRole, AppError>) -> Result<TokenRole, ErrorView> {
    match r {
        Ok(t) => Ok(t),
        Err(e) => Err(e@),
    }
}

/// The token role a member gets for a request: admins get what they ask for
/// (publish and subscribe by default), publishers may not ask for a
/// subscribe-only token, subscribers only get subscribe tokens.
pub fn resolve_role(requested: Option<TokenRole>, membership: MemberRole) -> (r: Result<
    TokenRole,
    AppError,
>)
    ensures
        role_result_view(r) == resolve_role_spec(requested, membership),
{
    match membership {
        MemberRole::Admin => Ok(
            match requested {
                Some(x) => x,
                None => TokenRole::PubSub,
            },
        ),
        MemberRole::Publisher => {
            let role = match requested {
                Some(x) => x,
                None => TokenRole::Publisher,
            };
            if role == TokenRole::Subscriber {
                return Err(forbidden("publisher members cannot request subscriber-only tokens"));
            }
            Ok(role)
        },
        MemberRole::Subscriber => {
            let role = match requested {
                Some(x) => x,
                None => TokenRole::Subscriber,
            };
            if role != TokenRole::Subscriber {
                return Err(forbidden("subscriber members can only get subscriber tokens"));
            }
            Ok(role)
        },
    }
}

/// A granted role is one the membership permits; a request succeeds exactly when it
/// asks for nothing or for a permitted role, and then it gets what it asked for.
pub proof fn lemma_resolve_role_permitted(requested: Option<TokenRole>, membership: MemberRole)
    ensures
        resolve_role_spec(requested, membership) matches Ok(t) ==> permits(membership, t),
        resolve_role_spec(requested, membership) is Ok <==> (match requested {
            Some(r) => permits(membership, r),
            None => true,
        }),
        requested matches Some(q) ==> (permits(membership, q) ==> resolve_role_spec(
            requested,
            membership,
        ) == Ok::<TokenRole, ErrorView>(q)),
        requested is None ==> resolve_role_spec(requested, membership) == Ok::<
            TokenRole,
            ErrorView,
        >(default_token_role(membership)),
{
}

/// How a caller's membership stands before a token is minted for a room.
#[derive(Debug, Clone, Copy, PartialEq, Eq, Structural)]
pub enum MintMembership {
    /// The caller is already a member with this role.
    Existing(MemberRole),
    /// The caller joins as an admin first.
    JoinAsAdmin,
}

/// Membership rule for signed-in callers: members keep their role; others join
/// public and sign-in rooms as admins, and are refused private rooms.
pub open spec fn mint_membership_spec(visibility: RoomVisibility, existing: Option<MemberRole>) -> Result<
    MintMembership,
    ErrorView,
> {
    match existing {
        Some(role) => Ok(MintMembership::Existing(role)),
        None => if visibility == RoomVisibility::Private {
            Err(
                ErrorView::Forbidden(
                    "this is a private room — you need an invite link or to be added by a member"@,
                ),
            )
        } else {
            Ok(MintMembership::JoinAsAdmin)
        },
    }
}

/// The decision a signed-in caller's token request gets in a room.
pub fn mint_membership(visibility: RoomVisibility, existing: Option<MemberRole>) -> (r: Result<
    MintMembership,
    AppError,
>)
    ensures
        match r {
            Ok(m) => mint_membership_spec(visibility, existing) == Ok::<MintMembership, ErrorView>(m),
            Err(e) => mint_membership_spec(visibility, existing) == Err::<MintMembership, ErrorView>(e@),
        },
{
    match existing {
        Some(role) => Ok(MintMembership::Existing(role)),
        None => {
            if visibility == RoomVisibility::Private {
                Err(
                    forbidden(
                        "this is a private room — you need an invite link or to be added by a member",
                    ),
                )
            } else {
                Ok(MintMembership::JoinAsAdmin)
            }
        },
    }
}

/// Guests may only enter public rooms.
pub open spec fn guest_access_spec(visibility: RoomVisibility) -> Result<(), ErrorView> {
    match visibility {
        RoomVisibility::Authenticated => Err(
            ErrorView::Forbidden(
                "this room requires sign-in — please log in with your identity provider to join"@,
            ),
        ),
        RoomVisibility::Private => Err(
            ErrorView::Forbidden(
                "this is a private room — you need an invite link or to be added by a member"@,
            ),
        ),
        RoomVisibility::Public => Ok(()),
    }
}

/// Whether a guest may take a token for a room of this visibility.
pub fn guest_access(visibility: RoomVisibility) -> (r: Result<(), AppError>)
    ensures
        match r {
            Ok(_) => guest_access_spec(visibility) is Ok,
            Err(e) => guest_access_spec(visibility) == Err::<(), ErrorView>(e@),
        },
{
    match visibility {
        RoomVisibility::Authenticated => Err(
            forbidden(
                "this room requires sign-in — please log in with your identity provider to join",
            ),
        ),
        RoomVisibility::Private => Err(
            forbidden(
                "this is a private room — you need an invite link or to be added by a member",
            ),
        ),
        RoomVisibility::Public => Ok(()),
    }
}

/// The room role a guest joins with: `"subscriber"` asks for subscribing only,
/// anything else (or nothing) publishes.
pub open spec fn guest_member_role_spec(requested: Option<Seq<char>>) -> MemberRole {
    match requested {
        Some(s) => if s == "subscriber"@ {
            MemberRole::Subscriber
        } else {
            MemberRole::Publisher
        },
        None => MemberRole::Publisher,
    }
}

/// The room role a guest joins with, from the role text of the request.
pub fn guest_member_role(requested: Option<&str>) -> (r: MemberRole)
    ensures
        r == guest_member_role_spec(
            match requested {
                Some(s) => Some(s@),
                None => None,
            },
        ),
{
    match requested {
        Some(s) => {
            proof {
                reveal_strlit("publisher");
                reveal_strlit("subscriber");
                assert("publisher"@.len() != "subscriber"@.len());
                assert("publisher"@ != "subscriber"@);
            }
            if str_eq(s, "publisher") {
                MemberRole::Publisher
            } else if str_eq(s, "subscriber") {
                MemberRole::Subscriber
            } else {
                MemberRole::Publisher
            }
        },
        None => MemberRole::Publisher,
    }
}

/// The token role a guest gets for a room role: publishers and admins publish and subscribe.
pub fn guest_token_role(role: MemberRole) -> (r: TokenRole)
    ensures
        r == match role {
            MemberRole::Publisher => TokenRole::PubSub,
            MemberRole::Subscriber => TokenRole::Subscriber,
            MemberRole::Admin => TokenRole::PubSub,
        },
{
    match role {
        MemberRole::Publisher => TokenRole::PubSub,
        MemberRole::Subscriber => TokenRole::Subscriber,
        MemberRole::Admin => TokenRole::PubSub,
    }
}

/// Whether two strings have the same characters.
pub fn str_eq(a: &str, b: &str) -> (r: bool)
    ensures
        r == (a@ == b@),
{
    let x = a.as_bytes();
    let y = b.as_bytes();
    let same = crate::session::bytes_eq(x, y);
    proof {
        vstd::utf8::encode_utf8_decode_utf8(a@);
        vstd::utf8::encode_utf8_decode_utf8(b@);
    }
    same
}

} // verus!
