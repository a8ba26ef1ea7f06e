use vstd::prelude::*;
use crate::db::rbac::{
    decode_roles, encode_roles, lemma_decode_encode, role_str_to_vec, PermissionToRole,
    RBACUserError, ANONYMOUS_ROLE_ID,
};
use crate::providers::auth::cache::{
    granted_roles, group_of, groups_ascending, tag_granted, PermissionCache,
};
use crate::types::err::{AppError, AppResult, EmptyErrResult, GlobalUserError};
use crate::types::service::AppService;
use crate::utils::sorted::{strictly_ascending, without};

verus! {

/// The roles that a caller acts with. A caller without identity, `None`,
/// holds the anonymous role alone. Any other caller holds what the stored
/// role string says, if it can be read.
pub open spec fn actor_roles(user_roles: Option<Seq<char>>) -> Option<Seq<i32>> {
    match user_roles {
        None => Some(seq![ANONYMOUS_ROLE_ID]),
        Some(stored) => decode_roles(stored),
    }
}

/// One of `roles` is in the group of `tag`.
pub open spec fn holds_permission(
    groups: Map<Seq<char>, Seq<i32>>,
    roles: Seq<i32>,
    tag: Seq<char>,
) -> bool {
    exists|i: int| 0 <= i < roles.len() && group_of(groups, tag).contains(#[trigger] roles[i])
}

/// Whether the caller may do what `tag` names: yes where one of the
/// caller's roles is in the tag's group. A role string that cannot be read
/// is an error of its own; no roles, a tag without entry and roles that are
/// all outside the group are denied alike.
pub open spec fn permission_decision(
    groups: Map<Seq<char>, Seq<i32>>,
    user_roles: Option<Seq<char>>,
    tag: Seq<char>,
) -> Result<(), AppError> {
    match actor_roles(user_roles) {
        None => Err(RBACUserError::RoleStrCorrupted.error()),
        Some(roles) => if holds_permission(groups, roles, tag) {
            Ok(())
        } else {
            Err(GlobalUserError::PermissionDenied.error())
        },
    }
}

/// The view of a stored role string that may be absent.
pub open spec fn roles_view(user_roles: Option<&str>) -> Option<Seq<char>> {
    match user_roles {
        None => None,
        Some(stored) => Some(stored@),
    }
}

/// Decides whether a caller may do what `permission` names. `user_roles`
/// is `None` for a caller without identity, else the role string stored
/// for the caller.
pub fn check_permission_api(
    cache: &PermissionCache,
    user_roles: Option<&str>,
    permission: &str,
) -> (r: AppResult<()>)
    ensures
        r == permission_decision(cache@, roles_view(user_roles), permission@),
{
    let roles: Vec<i32> = match user_roles {
        None => {
            let mut only: Vec<i32> = Vec::new();
            only.push(ANONYMOUS_ROLE_ID);
            only
        },
        Some(stored) => {
            match role_str_to_vec(stored.to_owned()) {
                Ok(ids) => ids,
                Err(e) => {
                    return Err(e);
                },
            }
        },
    };
    assert(actor_roles(roles_view(user_roles)) == Some(roles@));
    if roles.len() == 0 {
        return Err(GlobalUserError::PermissionDenied.to_error());
    }
    if cache.any_role(permission, &roles) {
        Ok(())
    } else {
        Err(GlobalUserError::PermissionDenied.to_error())
    }
}

/// Takes the deleted role `role` out of every group of the cache.
pub fn delete_role_cache(cache: &mut PermissionCache, role: i32)
    ensures
        final(cache)@.dom() == old(cache)@.dom(),
        forall|tag: Seq<char>| #[trigger]
            old(cache)@.contains_key(tag) ==> final(cache)@[tag] == without(old(cache)@[tag], role),
        groups_ascending(final(cache)@),
{
    cache.remove_role_everywhere(role);
}

/// The service that holds the index from permission tags to roles.
pub struct RBACService;

impl RBACService {
    /// Fills the cache from the grants that the store holds. `loaded` is
    /// `None` where the store could not be read: the cache then stays as it
    /// is and the service does not start.
    pub fn initialize(cache: &mut PermissionCache, loaded: Option<Vec<PermissionToRole>>) -> (r:
        EmptyErrResult<()>)
        ensures
            r is Ok <==> loaded is Some,
            loaded is None ==> final(cache)@ == old(cache)@,
            loaded matches Some(grants) ==> {
                &&& forall|tag: Seq<char>| #[trigger]
                    final(cache)@.contains_key(tag) <==> tag_granted(grants@, tag)
                &&& forall|tag: Seq<char>| #[trigger]
                    final(cache)@.contains_key(tag) ==> strictly_ascending(final(cache)@[tag])
                        && final(cache)@[tag].to_set() == granted_roles(grants@, tag)
            },
            groups_ascending(final(cache)@),
    {
        match loaded {
            Some(grants) => {
                cache.rebuild(&grants);
                Ok(())
            },
            None => {
                cache.export_order();
                Err(())
            },
        }
    }
}

impl AppService for RBACService {
    open spec fn service_name() -> &'static str {
        "RBACService"
    }

    fn name() -> (name: &'static str) {
        "RBACService"
    }
}

/// A caller with identity is permitted exactly where the stored role
/// string reads and one of its roles is in the group of the tag. A role
/// string that does not read is an error; a tag without entry and a caller
/// without roles are denied.
pub proof fn lemma_permitted_iff(groups: Map<Seq<char>, Seq<i32>>, stored: Seq<char>, tag: Seq<char>)
    ensures
        permission_decision(groups, Some(stored), tag) is Ok <==> decode_roles(stored) is Some
            && groups.contains_key(tag) && exists|i: int|
            0 <= i < decode_roles(stored).unwrap().len() && groups[tag].contains(
                #[trigger] decode_roles(stored).unwrap()[i],
            ),
        decode_roles(stored) is None ==> permission_decision(groups, Some(stored), tag) == Err::<
            (),
            AppError,
        >(RBACUserError::RoleStrCorrupted.error()),
        decode_roles(stored) is Some && (!groups.contains_key(tag) || decode_roles(
            stored,
        ).unwrap().len() == 0) ==> permission_decision(groups, Some(stored), tag) == Err::<
            (),
            AppError,
        >(GlobalUserError::PermissionDenied.error()),
{
    if decode_roles(stored) is Some {
        let roles = decode_roles(stored).unwrap();
        if holds_permission(groups, roles, tag) {
            let i = choose|i: int|
                0 <= i < roles.len() && group_of(groups, tag).contains(#[trigger] roles[i]);
            assert(groups.contains_key(tag));
            assert(groups[tag].contains(roles[i]));
        }
    }
}

/// A caller without identity is treated as a caller whose stored roles are
/// the anonymous role alone.
pub proof fn lemma_anonymous_is_role_zero(groups: Map<Seq<char>, Seq<i32>>, tag: Seq<char>)
    ensures
        permission_decision(groups, None, tag) == permission_decision(
            groups,
            Some(encode_roles(seq![ANONYMOUS_ROLE_ID])),
            tag,
        ),
{
    lemma_decode_encode(seq![ANONYMOUS_ROLE_ID]);
}

} // verus!
