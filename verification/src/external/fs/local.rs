use vstd::prelude::*;
use crate::utils::decimal::{int_text, push_i32_text};
use crate::utils::text::str_chars;

verus! {

/// The provider that keeps files in a directory of the local file system.
#[derive(Debug, Clone)]
pub struct LocalFs {
    pub path: String,
}

/// What the file system says of a path.
#[derive(Debug, Clone, Copy, PartialEq, Eq)]
pub struct PathMeta {
    pub is_dir: bool,
    pub readonly: bool,
}

/// `path` with a `/` at its end, added where there is none.
pub open spec fn with_slash(path: Seq<char>) -> Seq<char> {
    if path.len() > 0 && path.last() == '/' {
        path
    } else {
        path.push('/')
    }
}

/// `base` and then `more`, as paths are joined: an absolute `more` stands
/// alone; else `more` follows `base`, with a `/` between them unless
/// `base` is empty or ends in one.
pub open spec fn joined_path(base: Seq<char>, more: Seq<char>) -> Seq<char> {
    if more.len() > 0 && more[0] == '/' {
        more
    } else if base.len() > 0 && base.last() != '/' {
        base.push('/') + more
    } else {
        base + more
    }
}

/// The place of the file `path` of the user `user_id` under `root`: the
/// directory of the user, named by the id, and in it the path.
pub open spec fn user_file_path(root: Seq<char>, user_id: i32, path: Seq<char>) -> Seq<char> {
    joined_path(joined_path(root, int_text(user_id as int)), path)
}

/// Adds `more` to the path `base`, as paths are joined.
pub fn join_path(base: String, more: &str) -> (joined: String)
    ensures
        joined@ == joined_path(base@, more@),
{
    let more_chars = str_chars(more);
    if more_chars.len() > 0 && more_chars[0] == '/' {
        return more.to_owned();
    }
    let base_chars = str_chars(base.as_str());
    let mut joined = base;
    if base_chars.len() > 0 && base_chars[base_chars.len() - 1] != '/' {
        joined.push('/');
    }
    joined.append(more);
    joined
}

impl LocalFs {
    /// The name of the provider in the policies of the store.
    pub const EXTENSION_NAME: &'static str = "rustle.builtin.fs.local";

    /// The provider rooted at `path`. `meta` is what the file system says
    /// of `path`, `None` where it cannot be opened. The path must be a
    /// directory that can be written to.
    pub fn initialize(path: String, meta: Option<PathMeta>) -> (r: Result<LocalFs, ()>)
        ensures
            match meta {
                Some(m) => if m.is_dir && !m.readonly {
                    r is Ok && r.unwrap().path@ == with_slash(path@)
                } else {
                    r is Err
                },
                None => r is Err,
            },
    {
        let m = match meta {
            Some(m) => m,
            None => {
                return Err(());
            },
        };
        if !m.is_dir {
            return Err(());
        } else if m.readonly {
            return Err(());
        }
        let chars = str_chars(path.as_str());
        if chars.len() > 0 && chars[chars.len() - 1] == '/' {
            Ok(LocalFs { path })
        } else {
            let mut path = path;
            path.push('/');
            Ok(LocalFs { path })
        }
    }

    /// The place in the file system of the file `path` of the user
    /// `user_id`.
    pub fn file_path(&self, user_id: i32, path: &str) -> (place: String)
        ensures
            place@ == user_file_path(self.path@, user_id, path@),
    {
        let mut user_dir = String::new();
        push_i32_text(&mut user_dir, user_id);
        assert(user_dir@ =~= int_text(user_id as int));
        let dir = join_path(self.path.clone(), user_dir.as_str());
        join_path(dir, path)
    }
}

} // verus!
