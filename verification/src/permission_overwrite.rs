//! Requests to set and to remove the overwrites of a thread.

use crate::error::Error;
use crate::permission::{Permission, Permissions};
use crate::types::{PermissionOverwrite, PermissionOverwriteType};
use vstd::prelude::*;

verus! {

/// What a request to set an overwrite asks to allow and to deny.
#[derive(Debug, PartialEq, Eq, Hash)]
pub struct PermissionOverwriteSet {
    pub allow: Vec<Permission>,
    pub deny: Vec<Permission>,
}

/// Whether the holder of `perms` may do everything in `list`.
pub open spec fn spec_has_all(perms: Set<Permission>, list: Seq<Permission>) -> bool {
    forall|i: int| 0 <= i < list.len() ==> Permissions::spec_has(perms, #[trigger] list[i])
}

/// Whether the holder of `perms` may set or remove overwrites at all:
/// `RoleManage` is needed.
pub open spec fn spec_may_manage(perms: Set<Permission>) -> bool {
    Permissions::spec_has(perms, Permission::RoleManage)
}

/// Whether the holder of `perms` may do everything in `list`.
fn has_all(perms: &Permissions, list: &Vec<Permission>) -> (r: bool)
    ensures
        r == spec_has_all(perms@, list@),
{
    let mut i: usize = 0;
    while i < list.len()
        invariant
            i <= list.len(),
            forall|k: int| 0 <= k < i ==> Permissions::spec_has(perms@, #[trigger] list@[k]),
        decreases list.len() - i,
    {
        if !perms.has(list[i]) {
            return false;
        }
        i += 1;
    }
    true
}

/// Decides a request to set the overwrite of `overwrite_id` on a thread,
/// given what the user may do in the thread. To one who cannot view the
/// thread it does not exist. One who can needs `RoleManage`, and may hand
/// out or take away nothing that they may not do themselves. The result is
/// the overwrite to store; it is aimed at a user.
pub fn permission_thread_overwrite(
    perms: &Permissions,
    overwrite_id: u128,
    json: PermissionOverwriteSet,
) -> (r: Result<PermissionOverwrite, Error>)
    ensures
        !Permissions::spec_has(perms@, Permission::View) ==> r is Err && r->Err_0
            == Error::NotFound,
        Permissions::spec_has(perms@, Permission::View) && !(spec_may_manage(perms@)
            && spec_has_all(perms@, json.allow@) && spec_has_all(perms@, json.deny@)) ==> r is Err
            && r->Err_0 == Error::MissingPermissions,
        Permissions::spec_has(perms@, Permission::View) && spec_may_manage(perms@) && spec_has_all(
            perms@,
            json.allow@,
        ) && spec_has_all(perms@, json.deny@) ==> r is Ok && r->Ok_0 == (PermissionOverwrite {
            id: overwrite_id,
            ty: PermissionOverwriteType::User,
            allow: json.allow,
            deny: json.deny,
        }),
{
    match perms.ensure_view() {
        Ok(()) => {},
        Err(e) => {
            return Err(e);
        },
    }
    match perms.ensure(Permission::RoleManage) {
        Ok(()) => {},
        Err(e) => {
            return Err(e);
        },
    }
    if !has_all(perms, &json.allow) {
        return Err(Error::MissingPermissions);
    }
    if !has_all(perms, &json.deny) {
        return Err(Error::MissingPermissions);
    }
    Ok(
        PermissionOverwrite {
            id: overwrite_id,
            ty: PermissionOverwriteType::User,
            allow: json.allow,
            deny: json.deny,
        },
    )
}

/// Decides a request to remove an overwrite from a thread, given what the
/// user may do in the thread. To one who cannot view the thread it does not
/// exist; one who can needs `RoleManage`.
pub fn permission_thread_delete(perms: &Permissions) -> (r: Result<(), Error>)
    ensures
        r == if !Permissions::spec_has(perms@, Permission::View) {
            Err::<(), Error>(Error::NotFound)
        } else if !spec_may_manage(perms@) {
            Err::<(), Error>(Error::MissingPermissions)
        } else {
            Ok::<(), Error>(())
        },
{
    match perms.ensure_view() {
        Ok(()) => {},
        Err(e) => {
            return Err(e);
        },
    }
    perms.ensure(Permission::RoleManage)
}

/// Overwrites on tags are not provided.
pub fn permission_tag_overwrite() -> (r: Result<PermissionOverwrite, Error>)
    ensures
        r is Err && r->Err_0 == Error::Unimplemented,
{
    Err(Error::Unimplemented)
}

/// Overwrites on tags are not provided.
pub fn permission_tag_delete() -> (r: Result<(), Error>)
    ensures
        r == Err::<(), Error>(Error::Unimplemented),
{
    Err(Error::Unimplemented)
}

} // verus!
