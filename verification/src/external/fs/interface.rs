use vstd::prelude::*;
use crate::external::fs::local::{user_file_path, LocalFs};
use crate::external::fs::{FsService, FsUserError};
use crate::types::err::{AppError, AppResult};
use crate::utils::text::{part_views, split, split_chars, str_chars};

verus! {

/// What does the work of a storage policy.
#[derive(Debug, Clone)]
pub enum FsProvider {
    LocalProvider(LocalFs),
    ExtensionProvider {  },
}

/// Where a file of a policy is kept.
pub enum FileTarget {
    /// In the local file system, at this place.
    Local(String),
    /// With a provider that does not exist.
    Extension,
}

/// The first piece of `pieces` that names something: not empty and not
/// `.`.
pub open spec fn first_name(pieces: Seq<Seq<char>>) -> Option<Seq<char>>
    decreases pieces.len(),
{
    if pieces.len() == 0 {
        None
    } else if pieces[0].len() == 0 || pieces[0] == seq!['.'] {
        first_name(pieces.drop_first())
    } else {
        Some(pieces[0])
    }
}

/// A user may name the path `p`: it is absolute, and the first name on it
/// is not `__`.
pub open spec fn path_allowed(p: Seq<char>) -> bool {
    p.len() > 0 && p[0] == '/' && first_name(split(p, '/')) != Some(seq!['_', '_'])
}

/// Whether a user may name the path `p`.
pub fn check_path(p: &str) -> (allowed: bool)
    ensures
        allowed == path_allowed(p@),
{
    let chars = str_chars(p);
    if chars.len() == 0 || chars[0] != '/' {
        return false;
    }
    let pieces = split_chars(&chars, '/');
    let ghost views = split(p@, '/');
    let mut i: usize = 0;
    assert(views.skip(0) =~= views);
    while i < pieces.len()
        invariant
            i <= pieces.len(),
            p@.len() > 0 && p@[0] == '/',
            views == split(p@, '/'),
            views == part_views(pieces@),
            first_name(views) == first_name(views.skip(i as int)),
        decreases pieces.len() - i,
    {
        let piece: &Vec<char> = &pieces[i];
        proof {
            assert(views.skip(i as int).drop_first() =~= views.skip(i + 1));
            assert(views.skip(i as int)[0] == piece@);
        }
        if piece.len() == 0 || (piece.len() == 1 && piece[0] == '.') {
            assert(piece@.len() == 0 || piece@ =~= seq!['.']);
            i = i + 1;
        } else {
            assert(piece@ != seq!['.']);
            let reserved = piece.len() == 2 && piece[0] == '_' && piece[1] == '_';
            assert(reserved <==> piece@ =~= seq!['_', '_']);
            assert(first_name(views.skip(i as int)) == Some(piece@));
            return !reserved;
        }
    }
    true
}

impl FsProvider {
    /// Where the file `path` of the user `user_id` goes under the policy
    /// `policy_id`, for a path that the user named: the path must be one
    /// that a user may name.
    pub fn upload_file(service: &FsService, policy_id: i32, user_id: i32, path: &str) -> (r:
        AppResult<FileTarget>)
        ensures
            !path_allowed(path@) ==> r == Err::<FileTarget, AppError>(
                FsUserError::PathNameNotValid.error(),
            ),
            path_allowed(path@) ==> Self::target_found(service@, policy_id, user_id, path@, r),
    {
        if !check_path(path) {
            return Err(FsUserError::PathNameNotValid.to_error());
        }
        Self::upload_file_internal(service, policy_id, user_id, path)
    }

    /// `r` is where the file `path` of the user `user_id` is kept under
    /// the policy `policy_id`: an error where there is no such policy.
    pub open spec fn target_found(
        policies: Map<i32, crate::external::fs::FsPolicy>,
        policy_id: i32,
        user_id: i32,
        path: Seq<char>,
        r: AppResult<FileTarget>,
    ) -> bool {
        if !policies.contains_key(policy_id) {
            r == Err::<FileTarget, AppError>(FsUserError::PolicyNotFound.error())
        } else {
            match policies[policy_id].instance {
                FsProvider::LocalProvider(local) => r matches Ok(FileTarget::Local(place))
                    && place@ == user_file_path(local.path@, user_id, path),
                FsProvider::ExtensionProvider {  } => r matches Ok(FileTarget::Extension),
            }
        }
    }

    /// Where the file `path` of the user `user_id` goes under the policy
    /// `policy_id`, for any path.
    pub fn upload_file_internal(service: &FsService, policy_id: i32, user_id: i32, path: &str) -> (r:
        AppResult<FileTarget>)
        ensures
            Self::target_found(service@, policy_id, user_id, path@, r),
    {
        match service.get(policy_id) {
            None => Err(FsUserError::PolicyNotFound.to_error()),
            Some(policy) => match policy.instance {
                FsProvider::LocalProvider(local) => Ok(
                    FileTarget::Local(local.file_path(user_id, path)),
                ),
                FsProvider::ExtensionProvider {  } => Ok(FileTarget::Extension),
            },
        }
    }

    /// Where the file `path` of the user `user_id` is read from under the
    /// policy `policy_id`.
    pub fn get_file(service: &FsService, policy_id: i32, user_id: i32, path: &str) -> (r: AppResult<
        FileTarget,
    >)
        ensures
            Self::target_found(service@, policy_id, user_id, path@, r),
    {
        Self::upload_file_internal(service, policy_id, user_id, path)
    }
}

} // verus!
