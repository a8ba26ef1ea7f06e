use vstd::prelude::*;
use crate::db::{Query, QueryView};
use crate::utils::text::same_text;

verus! {

/// A storage policy as the store holds it. `meta` holds the settings of
/// the policy as pairs of a name and a value.
#[derive(Debug, Clone)]
pub struct FsPolicy {
    pub id: i32,
    pub name: String,
    pub extension: String,
    pub meta: Vec<(String, String)>,
}

/// The value of the first pair of `meta` whose name is `name`.
pub open spec fn meta_value(meta: Seq<(String, String)>, name: Seq<char>) -> Option<Seq<char>>
    decreases meta.len(),
{
    if meta.len() == 0 {
        None
    } else if meta[0].0@ == name {
        Some(meta[0].1@)
    } else {
        meta_value(meta.drop_first(), name)
    }
}

impl FsPolicy {
    /// The setting `name` of the policy, if it has one.
    pub fn meta_get(&self, name: &str) -> (value: Option<&String>)
        ensures
            match value {
                Some(v) => meta_value(self.meta@, name@) == Some(v@),
                None => meta_value(self.meta@, name@) is None,
            },
    {
        let mut i: usize = 0;
        assert(self.meta@.skip(0) =~= self.meta@);
        while i < self.meta.len()
            invariant
                i <= self.meta.len(),
                meta_value(self.meta@, name@) == meta_value(self.meta@.skip(i as int), name@),
            decreases self.meta.len() - i,
        {
            proof {
                assert(self.meta@.skip(i as int).drop_first() =~= self.meta@.skip(i + 1));
                assert(self.meta@.skip(i as int)[0] == self.meta@[i as int]);
            }
            if same_text(self.meta[i].0.as_str(), name) {
                return Some(&self.meta[i].1);
            }
            i = i + 1;
        }
        None
    }
}

/// The statement that reads every storage policy.
pub fn get_all_policies() -> (q: Query)
    ensures
        q@ == (QueryView { sql: "SELECT * FROM fs_policies"@, binds: Seq::empty() }),
{
    Query::new("SELECT * FROM fs_policies")
}

} // verus!
