use vstd::prelude::*;
use crate::db::rbac::{
    encode_roles, lemma_decode_encode, role_vec_to_str, update_user_roles, RBACUserError,
    delete_role_plan, ROLE_TYPE_SYSTEM_RESERVED,
};
use crate::db::user::User;
use crate::db::{DBResult, Query, QueryView, SqlValueView};
use crate::utils::paseto::{generate_access_token, token_key_of, TokenInternalError};
use crate::utils::password_salt::{
    argon2_accepts, argon2_hashed, compare_password, generate_password, valid_salt,
    PasswordSaltInternalError, PasswordTooLong,
};
use crate::providers::auth::cache::{group_of, groups_ascending, PermissionCache};
use crate::providers::auth::service::{delete_role_cache, permission_decision};
use crate::types::err::{AppError, AppResult, GlobalUserError};
use crate::utils::sorted::{lemma_without_contains, without};

verus! {

/// The permission that every change of roles and grants asks for.
pub const MANAGE_ROLE: &'static str = "MANAGE_ROLE";

/// Signs a user in who gave `password`. `user` is the user as the store
/// holds it, with password, `None` where there is no user of the given
/// name. An unknown user and a wrong password are answered alike. The
/// answer to a right password is a new access token, which differs from
/// call to call, or the token error where none could be made.
pub fn sign_in(user: Option<&User>, password: &str, secret: &str) -> (r: AppResult<String>)
    requires
        user matches Some(u) ==> u.password is Some,
    ensures
        match user {
            None => r == Err::<String, AppError>(GlobalUserError::CredentialUnauthorized.error()),
            Some(u) => if argon2_accepts(u.password.unwrap()@, vstd::utf8::encode_utf8(password@)) {
                &&& r matches Err(e) ==> e == TokenInternalError.error()
                &&& token_key_of(secret@) is None ==> r is Err
            } else {
                r == Err::<String, AppError>(GlobalUserError::CredentialUnauthorized.error())
            },
        },
{
    let u = match user {
        Some(u) => u,
        None => {
            return Err(GlobalUserError::CredentialUnauthorized.to_error());
        },
    };
    let hash: &String = match &u.password {
        Some(hash) => hash,
        None => {
            return Err(GlobalUserError::CredentialUnauthorized.to_error());
        },
    };
    if !compare_password(hash.as_str(), password) {
        return Err(GlobalUserError::CredentialUnauthorized.to_error());
    }
    generate_access_token(secret, u.id)
}

/// The statement that stores a new user with the default roles, for the
/// handler that exists for testing only. The password is stored hashed.
pub fn test_add_user(name: &str, email: &str, password: &str, salt: &str) -> (r: AppResult<Query>)
    requires
        valid_salt(salt@),
    ensures
        match argon2_hashed(vstd::utf8::encode_utf8(password@), salt@) {
            Ok(hash) => r is Ok && r.unwrap()@ == (QueryView {
                sql: "INSERT INTO users (name,email,password,avatar_time,roles) VALUES (?,?,?,now(),?)"@,
                binds: seq![
                    SqlValueView::Text(name@),
                    SqlValueView::Text(email@),
                    SqlValueView::Text(hash),
                    SqlValueView::Text(crate::db::rbac::DEFAULT_ROLE_STR@),
                ],
            }),
            Err(size) => r == Err::<Query, AppError>(
                if size {
                    PasswordTooLong.error()
                } else {
                    PasswordSaltInternalError.error()
                },
            ),
        },
{
    match generate_password(password, salt) {
        Ok(hash) => Ok(
            crate::db::user::create(name, email, hash.as_str(), crate::db::rbac::DEFAULT_ROLE_STR),
        ),
        Err(e) => Err(e),
    }
}

/// The first row of the page `page` of a list with `limit` rows a page, the
/// pages counted from one, where that number fits in an `i32`.
pub open spec fn page_offset(page: i32, limit: i32) -> Option<i32> {
    let offset = (page - 1) * limit;
    if i32::MIN <= page - 1 && i32::MIN <= offset <= i32::MAX {
        Some(offset as i32)
    } else {
        None
    }
}

/// The first row of a page of a list, or the error for a page that lies
/// too far out.
pub fn list_offset(page: i32, limit: i32) -> (r: AppResult<i32>)
    ensures
        r == match page_offset(page, limit) {
            Some(offset) => Ok::<i32, AppError>(offset),
            None => Err(GlobalUserError::TooMaxParameter.error()),
        },
{
    let before = match page.checked_sub(1) {
        Some(p) => p,
        None => {
            return Err(GlobalUserError::TooMaxParameter.to_error());
        },
    };
    match before.checked_mul(limit) {
        Some(offset) => Ok(offset),
        None => Err(GlobalUserError::TooMaxParameter.to_error()),
    }
}

/// The statement that stores `roles` as the roles of the user `user_id`,
/// or the error for a role set whose stored form is too long.
pub fn modify_user_roles(user_id: i32, roles: Vec<i32>) -> (r: AppResult<Query>)
    ensures
        encode_roles(roles@).len() <= 255 ==> r is Ok && r.unwrap()@ == (QueryView {
            sql: "UPDATE users SET roles = ? WHERE id = ?"@,
            binds: seq![SqlValueView::Text(encode_roles(roles@)), SqlValueView::Int(user_id as i64)],
        }),
        encode_roles(roles@).len() > 255 ==> r == Err::<Query, AppError>(
            RBACUserError::RoleTooLong.error(),
        ),
{
    match role_vec_to_str(roles) {
        Ok(stored) => Ok(update_user_roles(user_id, stored.as_str())),
        Err(e) => Err(e),
    }
}

/// What the store answered to a change: it failed, or it refused the change
/// for a reason of the caller's making, or it committed and gave `T` back.
pub open spec fn store_error<T>(outcome: DBResult<AppResult<T>>) -> Option<AppError> {
    match outcome {
        Ok(Ok(_)) => None,
        Ok(Err(e)) => Some(e),
        Err(d) => Some(d.error()),
    }
}

/// The groups after the role `role` was taken out of each of them.
pub open spec fn without_role(groups: Map<Seq<char>, Seq<i32>>, role: i32) -> Map<
    Seq<char>,
    Seq<i32>,
> {
    Map::new(|tag: Seq<char>| groups.contains_key(tag), |tag: Seq<char>| without(groups[tag], role))
}

/// Ends the deletion of the role `role_id`. `deleted` is what the store
/// came to. Only where the store committed the deletion, the role leaves
/// every group of the cache; in every other case the cache stays as it is
/// and the error is handed on.
pub fn remove_role(cache: &mut PermissionCache, role_id: i32, deleted: DBResult<AppResult<()>>) -> (r:
    AppResult<()>)
    ensures
        match store_error(deleted) {
            None => r is Ok && final(cache)@ == without_role(old(cache)@, role_id),
            Some(e) => r == Err::<(), AppError>(e) && final(cache)@ == old(cache)@,
        },
        groups_ascending(final(cache)@),
{
    match deleted {
        Ok(Ok(())) => {
            delete_role_cache(cache, role_id);
            assert(cache@ =~= without_role(old(cache)@, role_id));
            Ok(())
        },
        Ok(Err(e)) => {
            cache.export_order();
            Err(e)
        },
        Err(d) => {
            cache.export_order();
            Err(d.to_error())
        },
    }
}

/// The views of the tags of `tags`, in order.
pub open spec fn tag_views(tags: Seq<String>) -> Seq<Seq<char>> {
    Seq::new(tags.len(), |i: int| tags[i]@)
}

/// `after` is `before` with the role `role` put into the group of each tag of
/// `tags`: those tags have an entry, their groups hold `role` beside what
/// they held, and every other group holds what it held.
pub open spec fn role_added(
    before: Map<Seq<char>, Seq<i32>>,
    after: Map<Seq<char>, Seq<i32>>,
    role: i32,
    tags: Seq<Seq<char>>,
) -> bool {
    &&& forall|tag: Seq<char>| #[trigger]
        after.contains_key(tag) <==> before.contains_key(tag) || tags.contains(tag)
    &&& forall|tag: Seq<char>| #[trigger]
        after.contains_key(tag) ==> after[tag].to_set() == if tags.contains(tag) {
            group_of(before, tag).to_set().insert(role)
        } else {
            before[tag].to_set()
        }
}

/// Ends the making of a role with the grants `permissions`. `inserted` is
/// what the store came to, with the id of the new role where it committed.
/// Only then the new role joins the group of each tag of `permissions`;
/// no other group changes. In every other case the cache stays as it is
/// and the error is handed on.
pub fn add_role(
    cache: &mut PermissionCache,
    permissions: &Vec<String>,
    inserted: DBResult<AppResult<i32>>,
) -> (r: AppResult<()>)
    ensures
        r == match store_error(inserted) {
            None => Ok::<(), AppError>(()),
            Some(e) => Err(e),
        },
        store_error(inserted) is Some ==> final(cache)@ == old(cache)@,
        inserted matches Ok(Ok(role)) ==> role_added(
            old(cache)@,
            final(cache)@,
            role,
            tag_views(permissions@),
        ),
        groups_ascending(final(cache)@),
{
    let role: i32 = match inserted {
        Ok(Ok(role)) => role,
        Ok(Err(e)) => {
            cache.export_order();
            return Err(e);
        },
        Err(d) => {
            cache.export_order();
            return Err(d.to_error());
        },
    };
    let ghost before = cache@;
    let ghost tags = tag_views(permissions@);
    cache.export_order();
    let mut i: usize = 0;
    while i < permissions.len()
        invariant
            i <= permissions.len(),
            tags == tag_views(permissions@),
            groups_ascending(cache@),
            forall|tag: Seq<char>| #[trigger]
                cache@.contains_key(tag) <==> before.contains_key(tag) || tags.take(i as int).contains(
                    tag,
                ),
            forall|tag: Seq<char>| #[trigger]
                cache@.contains_key(tag) ==> cache@[tag].to_set() == if tags.take(i as int).contains(
                    tag,
                ) {
                    group_of(before, tag).to_set().insert(role)
                } else {
                    before[tag].to_set()
                },
        decreases permissions.len() - i,
    {
        let ghost now = cache@;
        let ghost here = permissions[i as int]@;
        cache.add_grant(permissions[i].as_str(), role);
        proof {
            let done = tags.take(i as int);
            let more = tags.take(i + 1);
            assert(more =~= done.push(here));
            assert forall|tag: Seq<char>| more.contains(tag) <==> done.contains(tag) || tag
                == here by {
                if more.contains(tag) {
                    let k = choose|k: int| 0 <= k < more.len() && more[k] == tag;
                    if k < i {
                        assert(done[k] == tag);
                    }
                }
                if done.contains(tag) {
                    let k = choose|k: int| 0 <= k < done.len() && done[k] == tag;
                    assert(more[k] == tag);
                }
                if tag == here {
                    assert(more[i as int] == tag);
                }
            }
            assert forall|tag: Seq<char>| #[trigger] cache@.contains_key(tag) implies cache@[tag].to_set()
                == if more.contains(tag) {
                group_of(before, tag).to_set().insert(role)
            } else {
                before[tag].to_set()
            } by {
                if tag == here {
                    if now.contains_key(tag) {
                        if done.contains(tag) {
                            assert(group_of(before, tag).to_set().insert(role).insert(role)
                                =~= group_of(before, tag).to_set().insert(role));
                        } else {
                            assert(before.contains_key(tag));
                        }
                    } else {
                        assert(!before.contains_key(tag));
                        assert(!done.contains(tag));
                    }
                } else {
                    assert(now.contains_key(tag));
                }
            }
        }
        i = i + 1;
    }
    assert(tags.take(permissions.len() as int) =~= tags);
    Ok(())
}

/// What is done to a grant.
#[derive(Debug, Clone, Copy, PartialEq, Eq)]
pub enum ModifyRolePermissionAction {
    Remove,
    Add,
}

/// The statement that adds or removes the grant of `permission` to `role`.
pub fn modify_role_permission_query(
    role: i32,
    permission: &str,
    action: ModifyRolePermissionAction,
) -> (q: Query)
    ensures
        q@ == (QueryView {
            sql: match action {
                ModifyRolePermissionAction::Remove => "DELETE FROM permission_to_roles WHERE role = ? AND permission = ?"@,
                ModifyRolePermissionAction::Add => "INSERT INTO permission_to_roles (role, permission) VALUES (?,?)"@,
            },
            binds: seq![SqlValueView::Int(role as i64), SqlValueView::Text(permission@)],
        }),
{
    match action {
        ModifyRolePermissionAction::Remove => crate::db::rbac::delete_role_permission(
            role,
            permission,
        ),
        ModifyRolePermissionAction::Add => crate::db::rbac::add_role_permission(role, permission),
    }
}

/// Ends the change of one grant. `stored` is what the store came to. Only
/// where it committed, the one group of `permission` follows: `role` joins
/// it or leaves it. In every other case the cache stays as it is.
pub fn modify_role_permission(
    cache: &mut PermissionCache,
    role: i32,
    permission: &str,
    action: ModifyRolePermissionAction,
    stored: DBResult<()>,
) -> (r: AppResult<()>)
    ensures
        r == match stored {
            Ok(_) => Ok::<(), AppError>(()),
            Err(d) => Err(d.error()),
        },
        stored is Err ==> final(cache)@ == old(cache)@,
        stored is Ok && action == ModifyRolePermissionAction::Remove ==> final(cache)@ == if old(cache)@.contains_key(permission@) {
            old(cache)@.insert(permission@, without(old(cache)@[permission@], role))
        } else {
            old(cache)@
        },
        stored is Ok && action == ModifyRolePermissionAction::Add ==> {
            &&& final(cache)@.dom() == old(cache)@.dom().insert(permission@)
            &&& forall|other: Seq<char>|
                other != permission@ && #[trigger] old(cache)@.contains_key(other) ==> final(cache)@[other] == old(cache)@[other]
            &&& final(cache)@[permission@].to_set() == group_of(
                old(cache)@,
                permission@,
            ).to_set().insert(role)
        },
        groups_ascending(final(cache)@),
{
    match stored {
        Ok(_) => {
            match action {
                ModifyRolePermissionAction::Remove => cache.remove_grant(permission, role),
                ModifyRolePermissionAction::Add => cache.add_grant(permission, role),
            }
            Ok(())
        },
        Err(d) => {
            cache.export_order();
            Err(d.to_error())
        },
    }
}

/// A role that the system has reserved is never deleted: asked to delete
/// one, the library answers with the error and with no statement for the
/// store, and handing that error on leaves the cache as it is.
pub proof fn lemma_reserved_role_stays(role: i32)
    ensures
        delete_role_plan(role, Some(ROLE_TYPE_SYSTEM_RESERVED)) == Err::<Seq<QueryView>, AppError>(
            GlobalUserError::SystemReserved.error(),
        ),
        store_error::<()>(Ok(Err(GlobalUserError::SystemReserved.error()))) == Some(
            GlobalUserError::SystemReserved.error(),
        ),
{
}

/// Once a role was taken out of every group, no group holds it, and a
/// caller who holds that role alone is denied every permission.
pub proof fn lemma_deleted_role_denied(groups: Map<Seq<char>, Seq<i32>>, role: i32, tag: Seq<char>)
    ensures
        !group_of(without_role(groups, role), tag).contains(role),
        permission_decision(without_role(groups, role), Some(encode_roles(seq![role])), tag) == Err::<
            (),
            AppError,
        >(GlobalUserError::PermissionDenied.error()),
{
    let after = without_role(groups, role);
    if after.contains_key(tag) {
        lemma_without_contains(groups[tag], role, role);
    }
    lemma_decode_encode(seq![role]);
}

/// Once a new role was put into the groups of its tags, a caller who holds
/// that role is permitted each of those tags.
pub proof fn lemma_new_role_permitted(
    before: Map<Seq<char>, Seq<i32>>,
    after: Map<Seq<char>, Seq<i32>>,
    role: i32,
    tags: Seq<Seq<char>>,
    tag: Seq<char>,
)
    requires
        role_added(before, after, role, tags),
        tags.contains(tag),
    ensures
        permission_decision(after, Some(encode_roles(seq![role])), tag) == Ok::<(), AppError>(()),
{
    lemma_decode_encode(seq![role]);
    assert(after.contains_key(tag));
    assert(after[tag].to_set().contains(role));
    assert(group_of(after, tag).contains(seq![role][0]));
}

} // verus!
