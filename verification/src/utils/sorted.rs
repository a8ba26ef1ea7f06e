use vstd::prelude::*;

verus! {

/// Each element is smaller than the one after it: the sequence is sorted
/// and nothing occurs twice.
pub open spec fn strictly_ascending(s: Seq<i32>) -> bool {
    forall|i: int, j: int| 0 <= i < j < s.len() ==> s[i] < s[j]
}

/// `s` without every occurrence of `x`, the rest in its order.
pub open spec fn without(s: Seq<i32>, x: i32) -> Seq<i32>
    decreases s.len(),
{
    if s.len() == 0 {
        s
    } else if s.last() == x {
        without(s.drop_last(), x)
    } else {
        without(s.drop_last(), x).push(s.last())
    }
}

/// Two strictly ascending sequences with the same elements are the same
/// sequence.
pub proof fn lemma_ascending_decided_by_set(a: Seq<i32>, b: Seq<i32>)
    requires
        strictly_ascending(a),
        strictly_ascending(b),
        a.to_set() == b.to_set(),
    ensures
        a == b,
    decreases a.len(),
{
    if a.len() == 0 {
        if b.len() > 0 {
            assert(b.to_set().contains(b[0]));
            assert(a.contains(b[0]));
        }
        assert(a =~= b);
    } else {
        assert(a.to_set().contains(a.last()));
        assert(b.contains(a.last()));
        assert(b.len() > 0);
        assert(b.to_set().contains(b.last()));
        assert(a.contains(b.last()));
        let ia = choose|i: int| 0 <= i < a.len() && a[i] == b.last();
        let ib = choose|i: int| 0 <= i < b.len() && b[i] == a.last();
        assert(a.last() == b.last());
        let a0 = a.drop_last();
        let b0 = b.drop_last();
        assert forall|x: i32| a0.to_set().contains(x) <==> b0.to_set().contains(x) by {
            if a0.contains(x) {
                let i = choose|i: int| 0 <= i < a0.len() && a0[i] == x;
                assert(a[i] == x);
                assert(a.to_set().contains(x));
                assert(b.contains(x));
                let k = choose|k: int| 0 <= k < b.len() && b[k] == x;
                assert(x < a.last());
                assert(b0[k] == x);
            }
            if b0.contains(x) {
                let i = choose|i: int| 0 <= i < b0.len() && b0[i] == x;
                assert(b[i] == x);
                assert(b.to_set().contains(x));
                assert(a.contains(x));
                let k = choose|k: int| 0 <= k < a.len() && a[k] == x;
                assert(x < b.last());
                assert(a0[k] == x);
            }
        }
        assert(a0.to_set() =~= b0.to_set());
        lemma_ascending_decided_by_set(a0, b0);
        assert(a =~= a0.push(a.last()));
        assert(b =~= b0.push(b.last()));
    }
}

/// Whether `x` occurs in the strictly ascending `group`, by binary search.
pub fn contains_sorted(group: &Vec<i32>, x: i32) -> (found: bool)
    requires
        strictly_ascending(group@),
    ensures
        found == group@.contains(x),
{
    let mut low: usize = 0;
    let mut high: usize = group.len();
    while low < high
        invariant
            low <= high <= group.len(),
            strictly_ascending(group@),
            forall|i: int| 0 <= i < low ==> group@[i] < x,
            forall|i: int| high <= i < group.len() ==> x < group@[i],
        decreases high - low,
    {
        let mid: usize = low + (high - low) / 2;
        let at: i32 = group[mid];
        if at == x {
            return true;
        } else if at < x {
            low = mid + 1;
        } else {
            high = mid;
        }
    }
    false
}

/// Whether one of `roles` is in the strictly ascending `group`.
pub fn any_role_in(roles: &Vec<i32>, group: &Vec<i32>) -> (found: bool)
    requires
        strictly_ascending(group@),
    ensures
        found == exists|i: int| 0 <= i < roles.len() && group@.contains(#[trigger] roles[i]),
{
    let mut i: usize = 0;
    while i < roles.len()
        invariant
            i <= roles.len(),
            strictly_ascending(group@),
            forall|j: int| 0 <= j < i ==> !group@.contains(#[trigger] roles[j]),
        decreases roles.len() - i,
    {
        if contains_sorted(group, roles[i]) {
            return true;
        }
        i = i + 1;
    }
    false
}

/// The first place in the strictly ascending `group` whose element is not
/// below `x`, or the length where there is none.
pub fn lower_bound(group: &Vec<i32>, x: i32) -> (at: usize)
    requires
        strictly_ascending(group@),
    ensures
        at <= group.len(),
        forall|i: int| 0 <= i < at ==> group@[i] < x,
        forall|i: int| at <= i < group.len() ==> x <= group@[i],
{
    let mut low: usize = 0;
    let mut high: usize = group.len();
    while low < high
        invariant
            low <= high <= group.len(),
            strictly_ascending(group@),
            forall|i: int| 0 <= i < low ==> group@[i] < x,
            forall|i: int| high <= i < group.len() ==> x <= group@[i],
        decreases high - low,
    {
        let mid: usize = low + (high - low) / 2;
        if group[mid] < x {
            low = mid + 1;
        } else {
            high = mid;
        }
    }
    low
}

/// Puts `x` into the strictly ascending `group` at its place, unless it is
/// there already.
pub fn insert_sorted(group: &mut Vec<i32>, x: i32)
    requires
        strictly_ascending(old(group)@),
    ensures
        strictly_ascending(final(group)@),
        final(group)@.to_set() == old(group)@.to_set().insert(x),
        old(group)@.contains(x) ==> final(group)@ == old(group)@,
{
    let at = lower_bound(group, x);
    if at < group.len() && group[at] == x {
        assert(group@.contains(x));
        assert(group@.to_set().insert(x) =~= group@.to_set());
        return ;
    }
    let ghost before = group@;
    group.insert(at, x);
    proof {
        assert forall|y: i32| group@.to_set().contains(y) <==> before.to_set().insert(x).contains(
            y,
        ) by {
            if group@.contains(y) {
                let i = choose|i: int| 0 <= i < group@.len() && group@[i] == y;
                if i < at {
                    assert(before[i] == y);
                } else if i > at {
                    assert(before[i - 1] == y);
                }
            }
            if before.contains(y) {
                let i = choose|i: int| 0 <= i < before.len() && before[i] == y;
                if i < at {
                    assert(group@[i] == y);
                } else {
                    assert(group@[i + 1] == y);
                }
            }
            if y == x {
                assert(group@[at as int] == x);
            }
        }
        assert(group@.to_set() =~= before.to_set().insert(x));
        if before.contains(x) {
            let i = choose|i: int| 0 <= i < before.len() && before[i] == x;
        }
    }
}

/// Takes every occurrence of `x` out of `group`; the rest keeps its order.
pub fn remove_value(group: &mut Vec<i32>, x: i32)
    ensures
        final(group)@ == without(old(group)@, x),
{
    let mut kept: Vec<i32> = Vec::new();
    let mut i: usize = 0;
    assert(group@.take(0) =~= Seq::<i32>::empty());
    while i < group.len()
        invariant
            i <= group.len(),
            kept@ == without(group@.take(i as int), x),
        decreases group.len() - i,
    {
        proof {
            assert(group@.take(i + 1).drop_last() =~= group@.take(i as int));
            assert(group@.take(i + 1).last() == group@[i as int]);
        }
        if group[i] != x {
            kept.push(group[i]);
        }
        i = i + 1;
    }
    assert(group@.take(group.len() as int) =~= group@);
    *group = kept;
}

/// What is left after taking `x` out does not hold `x`, and holds whatever
/// else the sequence held.
pub proof fn lemma_without_contains(s: Seq<i32>, x: i32, y: i32)
    ensures
        without(s, x).contains(y) <==> (s.contains(y) && y != x),
    decreases s.len(),
{
    let out = without(s, x);
    if s.len() > 0 {
        let head = s.drop_last();
        lemma_without_contains(head, x, y);
        let h = without(head, x);
        if out.contains(y) {
            let i = choose|i: int| 0 <= i < out.len() && out[i] == y;
            if i < h.len() {
                assert(h[i] == y);
                assert(h.contains(y));
                let k = choose|k: int| 0 <= k < head.len() && head[k] == y;
                assert(s[k] == y);
            } else {
                assert(s[s.len() - 1] == y);
            }
        }
        if s.contains(y) && y != x {
            let i = choose|i: int| 0 <= i < s.len() && s[i] == y;
            if i < head.len() {
                assert(head[i] == y);
                assert(head.contains(y));
                let k = choose|k: int| 0 <= k < h.len() && h[k] == y;
                assert(out[k] == y);
            } else {
                assert(out[out.len() - 1] == y);
            }
        }
    }
}

/// Taking a value out of a strictly ascending sequence leaves it strictly
/// ascending, and leaves exactly the other elements.
pub proof fn lemma_without_ascending(s: Seq<i32>, x: i32)
    requires
        strictly_ascending(s),
    ensures
        strictly_ascending(without(s, x)),
        without(s, x).to_set() == s.to_set().remove(x),
        !without(s, x).contains(x),
        !s.contains(x) ==> without(s, x) == s,
    decreases s.len(),
{
    let out = without(s, x);
    if s.len() == 0 {
        assert(out =~= s);
        assert(out.to_set() =~= s.to_set().remove(x));
    } else {
        let head = s.drop_last();
        lemma_without_ascending(head, x);
        let h = without(head, x);
        assert forall|y: i32| h.contains(y) implies y < s.last() by {
            assert(h.to_set().contains(y));
            assert(head.to_set().contains(y));
            let i = choose|i: int| 0 <= i < head.len() && head[i] == y;
            assert(s[i] == y);
        }
        assert forall|i: int, j: int| 0 <= i < j < out.len() implies out[i] < out[j] by {
            if j == h.len() {
                assert(h.contains(h[i]));
            }
        }
        assert forall|y: i32| out.to_set().contains(y) <==> s.to_set().remove(x).contains(y) by {
            if out.contains(y) {
                let i = choose|i: int| 0 <= i < out.len() && out[i] == y;
                if i < h.len() {
                    assert(h.contains(y));
                    assert(h.to_set().contains(y));
                    assert(head.contains(y));
                    let k = choose|k: int| 0 <= k < head.len() && head[k] == y;
                    assert(s[k] == y);
                } else {
                    assert(s[s.len() - 1] == y);
                }
            }
            if s.contains(y) && y != x {
                let i = choose|i: int| 0 <= i < s.len() && s[i] == y;
                if i < head.len() {
                    assert(head[i] == y);
                    assert(head.to_set().contains(y));
                    assert(h.to_set().contains(y));
                    let k = choose|k: int| 0 <= k < h.len() && h[k] == y;
                    assert(out[k] == y);
                } else {
                    assert(out[out.len() - 1] == y);
                }
            }
        }
        assert(out.to_set() =~= s.to_set().remove(x));
        if out.contains(x) {
            assert(out.to_set().contains(x));
        }
        if !s.contains(x) {
            assert forall|i: int| 0 <= i < head.len() implies head[i] != x by {
                assert(s[i] == head[i]);
            }
            assert(!head.contains(x));
            assert(s[s.len() - 1] != x);
            assert(out =~= s);
        }
    }
}

} // verus!
