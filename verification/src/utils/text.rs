use vstd::prelude::*;
use vstd::std_specs::iter::IteratorSpec;

verus! {

broadcast use vstd::string::group_string_axioms;

/// `String::push` appends the one character to the end of the string.
pub assume_specification[ String::push ](s: &mut String, ch: char)
    ensures
        final(s)@ == old(s)@.push(ch),
;

/// The characters of `s`, in order.
pub fn str_chars(s: &str) -> (chars: Vec<char>)
    ensures
        chars@ == s@,
{
    let mut chars: Vec<char> = Vec::new();
    let mut it = s.chars();
    loop
        invariant
            chars@ + it.remaining() == s@,
            it.obeys_prophetic_iter_laws(),
            it.decrease() is Some,
        decreases it.decrease()->0,
    {
        match it.next() {
            Some(c) => {
                chars.push(c);
            },
            None => {
                return chars;
            },
        }
    }
}

/// Whether the two texts are the same, character by character.
pub fn same_text(a: &str, b: &str) -> (same: bool)
    ensures
        same == (a@ == b@),
{
    a.to_owned() == b.to_owned()
}

/// The parts written one after another with `sep` between each two.
pub open spec fn join(parts: Seq<Seq<char>>, sep: char) -> Seq<char>
    decreases parts.len(),
{
    if parts.len() == 0 {
        Seq::empty()
    } else if parts.len() == 1 {
        parts[0]
    } else {
        join(parts.drop_last(), sep).push(sep) + parts.last()
    }
}

/// The parts written one after another with the text `sep` between each
/// two.
pub open spec fn join_with(parts: Seq<Seq<char>>, sep: Seq<char>) -> Seq<char>
    decreases parts.len(),
{
    if parts.len() == 0 {
        Seq::empty()
    } else if parts.len() == 1 {
        parts[0]
    } else {
        join_with(parts.drop_last(), sep) + sep + parts.last()
    }
}

/// The pieces of `s` between the occurrences of `sep`, in order. There is
/// always at least one piece: a string without `sep` is its own only piece,
/// and the empty string has one empty piece.
pub open spec fn split(s: Seq<char>, sep: char) -> Seq<Seq<char>>
    decreases s.len(),
{
    if s.len() == 0 {
        seq![Seq::empty()]
    } else {
        let before = split(s.drop_last(), sep);
        if s.last() == sep {
            before.push(Seq::empty())
        } else {
            before.update(before.len() - 1, before.last().push(s.last()))
        }
    }
}

/// A string without the separator is its own only piece.
pub proof fn lemma_split_one(t: Seq<char>, sep: char)
    requires
        !t.contains(sep),
    ensures
        split(t, sep) == seq![t],
    decreases t.len(),
{
    if t.len() == 0 {
        assert(t =~= Seq::<char>::empty());
    } else {
        let head = t.drop_last();
        assert forall|i: int| 0 <= i < head.len() implies head[i] != sep by {
            assert(t[i] == head[i]);
            assert(t.contains(t[i]));
        }
        assert(!head.contains(sep));
        lemma_split_one(head, sep);
        assert(t.contains(t.last()));
        assert(head.push(t.last()) =~= t);
        assert(seq![head].update(0, head.push(t.last())) =~= seq![t]);
    }
}

/// After a separator, a piece without the separator is a piece of its own.
pub proof fn lemma_split_after_sep(a: Seq<char>, t: Seq<char>, sep: char)
    requires
        !t.contains(sep),
    ensures
        split(a.push(sep) + t, sep) == split(a, sep).push(t),
    decreases t.len(),
{
    let s = a.push(sep) + t;
    if t.len() == 0 {
        assert(s =~= a.push(sep));
        assert(s.drop_last() =~= a);
        assert(t =~= Seq::<char>::empty());
    } else {
        let head = t.drop_last();
        assert forall|i: int| 0 <= i < head.len() implies head[i] != sep by {
            assert(t[i] == head[i]);
            assert(t.contains(t[i]));
        }
        assert(!head.contains(sep));
        lemma_split_after_sep(a, head, sep);
        assert(s.drop_last() =~= a.push(sep) + head);
        assert(s.last() == t.last());
        assert(t.contains(t.last()));
        assert(head.push(t.last()) =~= t);
        let before = split(a, sep).push(head);
        assert(before.update(before.len() - 1, t) =~= split(a, sep).push(t));
    }
}

/// Splitting what was joined gives the parts back, when there is at least
/// one part and none holds the separator.
pub proof fn lemma_split_join(parts: Seq<Seq<char>>, sep: char)
    requires
        parts.len() >= 1,
        forall|i: int| 0 <= i < parts.len() ==> !(#[trigger] parts[i]).contains(sep),
    ensures
        split(join(parts, sep), sep) == parts,
    decreases parts.len(),
{
    if parts.len() == 1 {
        lemma_split_one(parts[0], sep);
        assert(seq![parts[0]] =~= parts);
    } else {
        let init = parts.drop_last();
        assert forall|i: int| 0 <= i < init.len() implies !(#[trigger] init[i]).contains(sep) by {
            assert(init[i] == parts[i]);
        }
        lemma_split_join(init, sep);
        lemma_split_after_sep(join(init, sep), parts.last(), sep);
        assert(init.push(parts.last()) =~= parts);
    }
}

/// The views of the texts of `parts`, in order.
pub open spec fn part_views(parts: Seq<Vec<char>>) -> Seq<Seq<char>> {
    Seq::new(parts.len(), |i: int| parts[i]@)
}

/// Cuts `chars` at each occurrence of `sep`.
pub fn split_chars(chars: &Vec<char>, sep: char) -> (parts: Vec<Vec<char>>)
    ensures
        part_views(parts@) == split(chars@, sep),
{
    let mut parts: Vec<Vec<char>> = Vec::new();
    let mut piece: Vec<char> = Vec::new();
    let mut i: usize = 0;
    assert(chars@.take(0) =~= Seq::<char>::empty());
    assert(part_views(parts@).push(piece@) =~= seq![Seq::<char>::empty()]);
    while i < chars.len()
        invariant
            i <= chars.len(),
            split(chars@.take(i as int), sep) == part_views(parts@).push(piece@),
        decreases chars.len() - i,
    {
        let ghost before = part_views(parts@);
        let ghost current = piece@;
        proof {
            assert(chars@.take(i + 1).drop_last() =~= chars@.take(i as int));
            assert(chars@.take(i + 1).last() == chars@[i as int]);
        }
        if chars[i] == sep {
            parts.push(piece);
            piece = Vec::new();
            assert(part_views(parts@) =~= before.push(current));
        } else {
            piece.push(chars[i]);
            assert(before.push(current).update(before.len() as int, piece@) =~= before.push(
                piece@,
            ));
        }
        i = i + 1;
    }
    assert(chars@.take(chars.len() as int) =~= chars@);
    let ghost before = part_views(parts@);
    let ghost last = piece@;
    parts.push(piece);
    assert(part_views(parts@) =~= before.push(last));
    parts
}

/// The text made of the characters `chars`, in order.
pub fn chars_to_string(chars: &Vec<char>) -> (text: String)
    ensures
        text@ == chars@,
{
    let mut text = String::new();
    let mut i: usize = 0;
    while i < chars.len()
        invariant
            i <= chars.len(),
            text@ == chars@.take(i as int),
        decreases chars.len() - i,
    {
        text.push(chars[i]);
        assert(chars@.take(i as int).push(chars@[i as int]) =~= chars@.take(i + 1));
        i = i + 1;
    }
    assert(chars@.take(chars.len() as int) =~= chars@);
    text
}

/// `c` is white space: a character with the Unicode property of that
/// name. These are tab to carriage return, the space, the next-line sign,
/// the no-break space, the Ogham space mark, the spaces from en quad to
/// hair space, the line and the paragraph separator, the narrow no-break
/// space, the medium mathematical space and the ideographic space.
pub open spec fn is_white_space(c: char) -> bool {
    let n = c as u32;
    (0x09 <= n <= 0x0D) || n == 0x20 || n == 0x85 || n == 0xA0 || n == 0x1680 || (0x2000 <= n
        <= 0x200A) || n == 0x2028 || n == 0x2029 || n == 0x202F || n == 0x205F || n == 0x3000
}

/// `s` without the white space at its start.
pub open spec fn trim_start(s: Seq<char>) -> Seq<char>
    decreases s.len(),
{
    if s.len() > 0 && is_white_space(s[0]) {
        trim_start(s.drop_first())
    } else {
        s
    }
}

/// `s` without the white space at its end.
pub open spec fn trim_end(s: Seq<char>) -> Seq<char>
    decreases s.len(),
{
    if s.len() > 0 && is_white_space(s.last()) {
        trim_end(s.drop_last())
    } else {
        s
    }
}

/// `s` without the white space at its two ends.
pub open spec fn trimmed(s: Seq<char>) -> Seq<char> {
    trim_end(trim_start(s))
}

/// Whether `c` is white space.
pub fn white_space(c: char) -> (yes: bool)
    ensures
        yes == is_white_space(c),
{
    let n: u32 = c as u32;
    (0x09 <= n && n <= 0x0D) || n == 0x20 || n == 0x85 || n == 0xA0 || n == 0x1680 || (0x2000 <= n
        && n <= 0x200A) || n == 0x2028 || n == 0x2029 || n == 0x202F || n == 0x205F || n == 0x3000
}

/// Taking white space off the start leaves what follows it.
proof fn lemma_trim_start_skip(s: Seq<char>, i: int)
    requires
        0 <= i <= s.len(),
        forall|k: int| 0 <= k < i ==> is_white_space(#[trigger] s[k]),
    ensures
        trim_start(s) == trim_start(s.skip(i)),
    decreases i,
{
    if i == 0 {
        assert(s.skip(0) =~= s);
    } else {
        assert(is_white_space(s[0]));
        let rest = s.drop_first();
        assert forall|k: int| 0 <= k < i - 1 implies is_white_space(#[trigger] rest[k]) by {
            assert(rest[k] == s[k + 1]);
        }
        lemma_trim_start_skip(rest, i - 1);
        assert(rest.skip(i - 1) =~= s.skip(i));
    }
}

/// Taking white space off the end leaves what stands before it.
proof fn lemma_trim_end_take(s: Seq<char>, j: int)
    requires
        0 <= j <= s.len(),
        forall|k: int| j <= k < s.len() ==> is_white_space(#[trigger] s[k]),
    ensures
        trim_end(s) == trim_end(s.take(j)),
    decreases s.len() - j,
{
    if j == s.len() {
        assert(s.take(j) =~= s);
    } else {
        assert(is_white_space(s.last()));
        let rest = s.drop_last();
        assert forall|k: int| j <= k < rest.len() implies is_white_space(#[trigger] rest[k]) by {
            assert(rest[k] == s[k]);
        }
        lemma_trim_end_take(rest, j);
        assert(rest.take(j) =~= s.take(j));
    }
}

/// The characters `chars` without the white space at their two ends.
pub fn trim_chars(chars: &Vec<char>) -> (kept: Vec<char>)
    ensures
        kept@ == trimmed(chars@),
{
    let n: usize = chars.len();
    let mut from: usize = 0;
    while from < n && white_space(chars[from])
        invariant
            from <= n,
            n == chars.len(),
            forall|k: int| 0 <= k < from ==> is_white_space(#[trigger] chars@[k]),
        decreases n - from,
    {
        from = from + 1;
    }
    let mut to: usize = n;
    while to > from && white_space(chars[to - 1])
        invariant
            from <= to <= n,
            n == chars.len(),
            forall|k: int| to <= k < n ==> is_white_space(#[trigger] chars@[k]),
        decreases to - from,
    {
        to = to - 1;
    }
    let ghost started = chars@.skip(from as int);
    proof {
        lemma_trim_start_skip(chars@, from as int);
        if from < n {
            assert(started[0] == chars@[from as int]);
        }
        assert(trim_start(chars@) == started);
        assert forall|k: int| to - from <= k < started.len() implies is_white_space(
            #[trigger] started[k],
        ) by {
            assert(started[k] == chars@[k + from]);
        }
        lemma_trim_end_take(started, to - from);
        let cut = started.take(to - from);
        if to > from {
            assert(cut.last() == chars@[to - 1]);
        }
        assert(trim_end(cut) == cut);
        assert(cut =~= chars@.subrange(from as int, to as int));
    }
    let mut kept: Vec<char> = Vec::new();
    let mut i: usize = from;
    while i < to
        invariant
            from <= i <= to <= chars.len(),
            kept@ == chars@.subrange(from as int, i as int),
        decreases to - i,
    {
        kept.push(chars[i]);
        assert(chars@.subrange(from as int, i as int).push(chars@[i as int]) =~= chars@.subrange(
            from as int,
            i + 1,
        ));
        i = i + 1;
    }
    kept
}

} // verus!
