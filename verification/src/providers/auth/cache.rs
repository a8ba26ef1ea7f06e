use vstd::prelude::*;
use dashmap::DashMap;
use crate::db::rbac::PermissionToRole;
use crate::utils::sorted::{
    any_role_in, insert_sorted, lemma_without_ascending, remove_value, strictly_ascending,
    without,
};

verus! {

/// `dashmap::DashMap`, a map that many threads can use at once. Nothing of
/// its inside is known here; what a map holds is told by a name of its own
/// for each kind of map that is used.
#[verifier::external_type_specification]
#[verifier::external_body]
#[verifier::reject_recursive_types(K)]
#[verifier::reject_recursive_types(V)]
#[verifier::reject_recursive_types(S)]
pub struct ExDashMap<K, V, S>(DashMap<K, V, S>);

/// What a map from permission tags to role ids holds: for each tag that
/// has an entry, the role ids stored under it, in their stored order.
pub uninterp spec fn group_map(m: DashMap<String, Vec<i32>>) -> Map<Seq<char>, Seq<i32>>;

/// `DashMap::new` makes a map without entries.
#[verifier::external_body]
fn groups_new() -> (made: DashMap<String, Vec<i32>>)
    ensures
        group_map(made) =~= Map::empty(),
{
    DashMap::new()
}

/// `DashMap::get` finds the entry stored under a key equal to `tag`. The
/// role ids of that entry are copied out; `None` says that there is no
/// such entry.
#[verifier::external_body]
fn groups_get(m: &DashMap<String, Vec<i32>>, tag: &str) -> (group: Option<Vec<i32>>)
    ensures
        match group {
            Some(ids) => group_map(*m).contains_key(tag@) && ids@ == group_map(*m)[tag@],
            None => !group_map(*m).contains_key(tag@),
        },
{
    match m.get(tag) {
        Some(entry) => Some(entry.value().clone()),
        None => None,
    }
}

/// Every group of `groups` is strictly ascending.
pub open spec fn groups_ascending(groups: Map<Seq<char>, Seq<i32>>) -> bool {
    forall|tag: Seq<char>| #[trigger] groups.contains_key(tag) ==> strictly_ascending(groups[tag])
}

/// Whether one of `roles` is in the group of `tag`; `None` where the tag
/// has no entry.
pub open spec fn role_lookup(
    groups: Map<Seq<char>, Seq<i32>>,
    tag: Seq<char>,
    roles: Seq<i32>,
) -> Option<bool> {
    if groups.contains_key(tag) {
        Some(exists|i: int| 0 <= i < roles.len() && groups[tag].contains(#[trigger] roles[i]))
    } else {
        None
    }
}

/// `DashMap::view` finds the entry stored under a key equal to `tag` and
/// hands the role ids of that entry, where they are stored, to the
/// closure, whose answer it gives back; `None` says that there is no such
/// entry. The closure searches the stored group for the roles by binary
/// search, which asks for ascending groups.
#[verifier::external_body]
fn groups_any_role(m: &DashMap<String, Vec<i32>>, tag: &str, roles: &Vec<i32>) -> (found: Option<
    bool,
>)
    requires
        groups_ascending(group_map(*m)),
    ensures
        found == role_lookup(group_map(*m), tag@, roles@),
{
    m.view(tag, |_, group| any_role_in(roles, group))
}

/// `DashMap::insert` stores `group` under `tag`, in place of what was
/// stored under an equal key before; every other entry stays as it was.
/// The call comes back without unwinding: the keys are strings, whose
/// hashing and comparing do not panic.
#[verifier::external_body]
fn groups_insert(m: &mut DashMap<String, Vec<i32>>, tag: String, group: Vec<i32>)
    ensures
        group_map(*final(m)) == group_map(*old(m)).insert(tag@, group@),
    no_unwind
{
    m.insert(tag, group);
}

/// `tags` names each key of `groups` once and nothing else.
pub open spec fn lists_keys(tags: Seq<String>, groups: Map<Seq<char>, Seq<i32>>) -> bool {
    &&& forall|i: int| 0 <= i < tags.len() ==> groups.contains_key(#[trigger] tags[i]@)
    &&& forall|tag: Seq<char>| #[trigger]
        groups.contains_key(tag) ==> exists|i: int| 0 <= i < tags.len() && tags[i]@ == tag
    &&& forall|i: int, j: int| 0 <= i < j < tags.len() ==> tags[i]@ != tags[j]@
}

/// `DashMap::iter` visits each entry once, in an order that is not fixed.
/// The keys of the entries are copied out: each tag that has an entry
/// occurs once in the result, and nothing else occurs in it.
#[verifier::external_body]
fn groups_tags(m: &DashMap<String, Vec<i32>>) -> (tags: Vec<String>)
    ensures
        lists_keys(tags@, group_map(*m)),
{
    m.iter().map(|entry| entry.key().clone()).collect()
}

/// The role ids stored under `tag`, or none where the tag has no entry.
pub open spec fn group_of(groups: Map<Seq<char>, Seq<i32>>, tag: Seq<char>) -> Seq<i32> {
    if groups.contains_key(tag) {
        groups[tag]
    } else {
        Seq::empty()
    }
}

/// Some grant in `grants` is for the tag `tag`.
pub open spec fn tag_granted(grants: Seq<PermissionToRole>, tag: Seq<char>) -> bool {
    exists|i: int| 0 <= i < grants.len() && (#[trigger] grants[i]).permission@ == tag
}

/// The roles that `grants` gives the tag `tag` to.
pub open spec fn granted_roles(grants: Seq<PermissionToRole>, tag: Seq<char>) -> Set<i32> {
    Set::new(
        |role: i32|
            exists|i: int|
                0 <= i < grants.len() && (#[trigger] grants[i]).permission@ == tag && grants[i].role
                    == role,
    )
}

/// The index from permission tags to the roles that hold them. Its view maps
/// each tag that has an entry to its group of role ids. Every group is kept
/// strictly ascending, so that a role is found in it by binary search.
pub struct PermissionCache {
    groups: DashMap<String, Vec<i32>>,
}

impl View for PermissionCache {
    type V = Map<Seq<char>, Seq<i32>>;

    closed spec fn view(&self) -> Map<Seq<char>, Seq<i32>> {
        group_map(self.groups)
    }
}

impl PermissionCache {
    #[verifier::type_invariant]
    spec fn sorted(self) -> bool {
        groups_ascending(group_map(self.groups))
    }

    /// A cache without entries.
    pub fn new() -> (cache: PermissionCache)
        ensures
            cache@ == Map::<Seq<char>, Seq<i32>>::empty(),
    {
        PermissionCache { groups: groups_new() }
    }

    /// Does nothing; tells the caller that every group is strictly
    /// ascending.
    pub fn export_order(&self)
        ensures
            groups_ascending(self@),
    {
        proof {
            use_type_invariant(self);
        }
    }

    /// The group of `tag`: a copy of the roles that hold it, strictly
    /// ascending. `None` where the tag has no entry. To ask for single
    /// roles, `contains_role` and `any_role` search the group where it is
    /// stored.
    pub fn get(&self, tag: &str) -> (group: Option<Vec<i32>>)
        ensures
            group is Some <==> self@.contains_key(tag@),
            group matches Some(ids) ==> ids@ == self@[tag@] && strictly_ascending(ids@),
    {
        proof {
            use_type_invariant(self);
        }
        groups_get(&self.groups, tag)
    }

    /// Whether one of `roles` is in the group of `tag`. The group is
    /// searched where it is stored, once for each role, by binary search.
    /// A tag without an entry has no role in its group.
    pub fn any_role(&self, tag: &str, roles: &Vec<i32>) -> (found: bool)
        ensures
            found == exists|i: int|
                0 <= i < roles.len() && group_of(self@, tag@).contains(#[trigger] roles[i]),
    {
        proof {
            use_type_invariant(self);
        }
        match groups_any_role(&self.groups, tag, roles) {
            Some(found) => found,
            None => {
                assert(group_of(self@, tag@) =~= Seq::<i32>::empty());
                false
            },
        }
    }

    /// Whether `role_id` is in the group of `tag`, by binary search in the
    /// stored group. A tag without an entry has no role in its group.
    pub fn contains_role(&self, tag: &str, role_id: i32) -> (found: bool)
        ensures
            found == group_of(self@, tag@).contains(role_id),
    {
        let mut one: Vec<i32> = Vec::new();
        one.push(role_id);
        let found = self.any_role(tag, &one);
        assert(one@[0] == role_id);
        found
    }

    /// Puts `role_id` into the group of `tag` at its place in the order,
    /// unless it is there already. A tag without an entry gets one. No
    /// other group changes.
    pub fn add_grant(&mut self, tag: &str, role_id: i32)
        ensures
            final(self)@.dom() == old(self)@.dom().insert(tag@),
            forall|other: Seq<char>|
                other != tag@ && #[trigger] old(self)@.contains_key(other) ==> final(self)@[other]
                    == old(self)@[other],
            strictly_ascending(final(self)@[tag@]),
            final(self)@[tag@].to_set() == group_of(old(self)@, tag@).to_set().insert(role_id),
            groups_ascending(final(self)@),
    {
        proof {
            use_type_invariant(&*self);
        }
        let mut group: Vec<i32> = match groups_get(&self.groups, tag) {
            Some(ids) => ids,
            None => Vec::new(),
        };
        insert_sorted(&mut group, role_id);
        groups_insert(&mut self.groups, tag.to_owned(), group);
        assert(final(self)@.dom() =~= old(self)@.dom().insert(tag@));
    }

    /// Takes `role_id` out of the group of `tag`. The group keeps its
    /// entry, also where nothing is left in it. No other group changes,
    /// and a tag without an entry gets none.
    pub fn remove_grant(&mut self, tag: &str, role_id: i32)
        ensures
            final(self)@ == if old(self)@.contains_key(tag@) {
                old(self)@.insert(tag@, without(old(self)@[tag@], role_id))
            } else {
                old(self)@
            },
            groups_ascending(final(self)@),
    {
        proof {
            use_type_invariant(&*self);
        }
        match groups_get(&self.groups, tag) {
            Some(ids) => {
                let mut group = ids;
                proof {
                    lemma_without_ascending(group@, role_id);
                }
                remove_value(&mut group, role_id);
                groups_insert(&mut self.groups, tag.to_owned(), group);
            },
            None => {},
        }
    }

    /// Takes `role_id` out of every group. Each tag keeps its entry.
    pub fn remove_role_everywhere(&mut self, role_id: i32)
        ensures
            final(self)@.dom() == old(self)@.dom(),
            forall|tag: Seq<char>| #[trigger]
                old(self)@.contains_key(tag) ==> final(self)@[tag] == without(
                    old(self)@[tag],
                    role_id,
                ),
            groups_ascending(final(self)@),
    {
        proof {
            use_type_invariant(&*self);
        }
        let tags = groups_tags(&self.groups);
        let ghost before = self@;
        let mut i: usize = 0;
        while i < tags.len()
            invariant
                i <= tags.len(),
                lists_keys(tags@, before),
                groups_ascending(before),
                groups_ascending(self@),
                self@.dom() == before.dom(),
                forall|j: int| 0 <= j < i ==> self@[#[trigger] tags[j]@] == without(before[tags[j]@], role_id),
                forall|j: int| i <= j < tags.len() ==> self@[#[trigger] tags[j]@] == before[tags[j]@],
            decreases tags.len() - i,
        {
            let tag: &String = &tags[i];
            assert(before.contains_key(tags[i as int]@));
            let ghost now = self@;
            match groups_get(&self.groups, tag.as_str()) {
                Some(ids) => {
                    let mut group = ids;
                    proof {
                        lemma_without_ascending(group@, role_id);
                    }
                    remove_value(&mut group, role_id);
                    groups_insert(&mut self.groups, tag.clone(), group);
                    assert(self@.dom() =~= before.dom());
                },
                None => {
                    assert(false);
                },
            }
            assert forall|j: int| 0 <= j < tags.len() && j != i implies self@[#[trigger] tags[j]@]
                == now[tags[j]@] by {
                assert(tags[j]@ != tags[i as int]@);
            }
            i = i + 1;
        }
        assert forall|tag: Seq<char>| #[trigger] before.contains_key(tag) implies self@[tag]
            == without(before[tag], role_id) by {
            let j = choose|j: int| 0 <= j < tags.len() && tags[j]@ == tag;
            assert(self@[tags[j]@] == without(before[tags[j]@], role_id));
        }
    }

    /// Replaces all that the cache holds by what `grants` says: an entry
    /// for each tag that occurs in `grants`, and in its group each role
    /// that the tag is granted to, once, strictly ascending. The new
    /// contents take the place of the old ones in one assignment.
    pub fn rebuild(&mut self, grants: &Vec<PermissionToRole>)
        ensures
            forall|tag: Seq<char>| #[trigger]
                final(self)@.contains_key(tag) <==> tag_granted(grants@, tag),
            forall|tag: Seq<char>| #[trigger]
                final(self)@.contains_key(tag) ==> strictly_ascending(final(self)@[tag])
                    && final(self)@[tag].to_set() == granted_roles(grants@, tag),
            groups_ascending(final(self)@),
    {
        let mut fresh = groups_new();
        let mut i: usize = 0;
        while i < grants.len()
            invariant
                i <= grants.len(),
                groups_ascending(group_map(fresh)),
                forall|tag: Seq<char>| #[trigger]
                    group_map(fresh).contains_key(tag) <==> tag_granted(grants@.take(i as int), tag),
                forall|tag: Seq<char>| #[trigger]
                    group_map(fresh).contains_key(tag) ==> group_map(fresh)[tag].to_set()
                        == granted_roles(grants@.take(i as int), tag),
            decreases grants.len() - i,
        {
            let grant: &PermissionToRole = &grants[i];
            let ghost done = grants@.take(i as int);
            let ghost more = grants@.take(i + 1);
            let ghost held = group_map(fresh);
            let mut group: Vec<i32> = match groups_get(&fresh, grant.permission.as_str()) {
                Some(ids) => ids,
                None => Vec::new(),
            };
            let ghost old_group = group@;
            insert_sorted(&mut group, grant.role);
            groups_insert(&mut fresh, grant.permission.clone(), group);
            proof {
                let here = grant.permission@;
                assert(more[i as int] == grants@[i as int]);
                assert forall|j: int| 0 <= j < i implies more[j] == done[j] by {}
                assert forall|tag: Seq<char>| #[trigger]
                    group_map(fresh).contains_key(tag) <==> tag_granted(more, tag) by {
                    if tag_granted(more, tag) {
                        let j = choose|j: int| 0 <= j < more.len() && (#[trigger] more[j]).permission@ == tag;
                        if j < i {
                            assert(done[j].permission@ == tag);
                            assert(tag_granted(done, tag));
                        }
                    }
                    if group_map(fresh).contains_key(tag) {
                        if tag == here {
                            assert(more[i as int].permission@ == tag);
                        } else {
                            assert(held.contains_key(tag));
                            let j = choose|j: int| 0 <= j < done.len() && (#[trigger] done[j]).permission@ == tag;
                            assert(more[j].permission@ == tag);
                        }
                    }
                }
                assert forall|tag: Seq<char>| #[trigger]
                    group_map(fresh).contains_key(tag) implies group_map(fresh)[tag].to_set()
                    == granted_roles(more, tag) by {
                    let before_set = granted_roles(done, tag);
                    let after_set = granted_roles(more, tag);
                    if tag == here {
                        if !held.contains_key(tag) {
                            assert(old_group.to_set() =~= Set::<i32>::empty());
                            assert forall|role: i32| !before_set.contains(role) by {
                                if before_set.contains(role) {
                                    let j = choose|j: int| 0 <= j < done.len() && (#[trigger] done[j]).permission@ == tag && done[j].role == role;
                                    assert(tag_granted(done, tag));
                                }
                            }
                            assert(before_set =~= Set::<i32>::empty());
                        }
                        assert(old_group.to_set() == before_set);
                        assert forall|role: i32| after_set.contains(role) <==> before_set.insert(
                            grant.role,
                        ).contains(role) by {
                            if after_set.contains(role) {
                                let j = choose|j: int| 0 <= j < more.len() && (#[trigger] more[j]).permission@ == tag && more[j].role == role;
                                if j < i {
                                    assert(done[j].permission@ == tag && done[j].role == role);
                                }
                            }
                            if before_set.contains(role) {
                                let j = choose|j: int| 0 <= j < done.len() && (#[trigger] done[j]).permission@ == tag && done[j].role == role;
                                assert(more[j].permission@ == tag && more[j].role == role);
                            }
                            if role == grant.role {
                                assert(more[i as int].permission@ == tag && more[i as int].role == role);
                            }
                        }
                        assert(after_set =~= before_set.insert(grant.role));
                    } else {
                        assert(held.contains_key(tag));
                        assert forall|role: i32| after_set.contains(role) <==> before_set.contains(
                            role,
                        ) by {
                            if after_set.contains(role) {
                                let j = choose|j: int| 0 <= j < more.len() && (#[trigger] more[j]).permission@ == tag && more[j].role == role;
                                assert(j < i);
                                assert(done[j].permission@ == tag && done[j].role == role);
                            }
                            if before_set.contains(role) {
                                let j = choose|j: int| 0 <= j < done.len() && (#[trigger] done[j]).permission@ == tag && done[j].role == role;
                                assert(more[j].permission@ == tag && more[j].role == role);
                            }
                        }
                        assert(after_set =~= before_set);
                    }
                }
            }
            i = i + 1;
        }
        assert(grants@.take(grants.len() as int) =~= grants@);
        self.groups = fresh;
    }
}

} // verus!
