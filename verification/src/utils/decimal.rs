use vstd::prelude::*;
use crate::utils::text::str_chars;

verus! {

/// `c` is one of the ten ASCII digits.
pub open spec fn is_digit(c: char) -> bool {
    '0' <= c <= '9'
}

/// The number that the ASCII digit `c` stands for.
pub open spec fn digit_value(c: char) -> int {
    c as int - 48
}

/// The ASCII digit that stands for `d`, for `0 <= d <= 9`.
pub open spec fn digit_char(d: int) -> char {
    ((d + 48) as u8) as char
}

/// Every character of `s` is an ASCII digit.
pub open spec fn all_digits(s: Seq<char>) -> bool {
    forall|i: int| 0 <= i < s.len() ==> is_digit(#[trigger] s[i])
}

/// The number written by the digit string `s`, most significant digit first.
/// The empty string counts as zero.
pub open spec fn digits_value(s: Seq<char>) -> int
    decreases s.len(),
{
    if s.len() == 0 {
        0
    } else {
        digits_value(s.drop_last()) * 10 + digit_value(s.last())
    }
}

/// The shortest decimal writing of `n`: no leading zero, except for zero itself.
pub open spec fn nat_text(n: nat) -> Seq<char>
    decreases n,
{
    if n < 10 {
        seq![digit_char(n as int)]
    } else {
        nat_text(n / 10).push(digit_char((n % 10) as int))
    }
}

/// The decimal writing of `n`, with a leading `-` for negative numbers.
pub open spec fn int_text(n: int) -> Seq<char> {
    if n < 0 {
        seq!['-'] + nat_text((-n) as nat)
    } else {
        nat_text(n as nat)
    }
}

/// The integer that `s` writes: an optional `+` or `-`, then one or more ASCII
/// digits and nothing else. Any other string gives `None`.
pub open spec fn parse_int(s: Seq<char>) -> Option<int> {
    let signed = s.len() > 0 && (s[0] == '-' || s[0] == '+');
    let body = if signed { s.skip(1) } else { s };
    if body.len() == 0 || !all_digits(body) {
        None
    } else if signed && s[0] == '-' {
        Some(-digits_value(body))
    } else {
        Some(digits_value(body))
    }
}

/// As `parse_int`, and the number must fit in an `i32`.
pub open spec fn parse_i32(s: Seq<char>) -> Option<i32> {
    match parse_int(s) {
        Some(v) => if i32::MIN <= v <= i32::MAX { Some(v as i32) } else { None },
        None => None,
    }
}

proof fn lemma_digit_char(d: int)
    requires
        0 <= d <= 9,
    ensures
        is_digit(digit_char(d)),
        digit_value(digit_char(d)) == d,
        digit_char(d) != ',',
        digit_char(d) != '-',
        digit_char(d) != '+',
{
}

/// What `nat_text` writes is a non-empty digit string that reads back as `n`.
pub proof fn lemma_nat_text(n: nat)
    ensures
        nat_text(n).len() >= 1,
        all_digits(nat_text(n)),
        digits_value(nat_text(n)) == n,
    decreases n,
{
    if n < 10 {
        let s = nat_text(n);
        lemma_digit_char(n as int);
        assert(s.drop_last() =~= Seq::<char>::empty());
        assert(digits_value(s.drop_last()) == 0);
    } else {
        lemma_nat_text(n / 10);
        lemma_digit_char((n % 10) as int);
        let s = nat_text(n);
        assert(s.drop_last() =~= nat_text(n / 10));
    }
}

/// Reading back what `int_text` wrote gives the number written.
pub proof fn lemma_parse_int_text(n: int)
    ensures
        parse_int(int_text(n)) == Some(n),
        int_text(n).len() >= 1,
        !int_text(n).contains(','),
{
    let s = int_text(n);
    if n < 0 {
        lemma_nat_text((-n) as nat);
        assert(s.skip(1) =~= nat_text((-n) as nat));
        assert(s[0] == '-');
    } else {
        lemma_nat_text(n as nat);
        assert(is_digit(s[0]));
    }
    assert forall|i: int| 0 <= i < s.len() implies s[i] != ',' by {
        if n < 0 {
            if i > 0 {
                assert(s[i] == nat_text((-n) as nat)[i - 1]);
                assert(is_digit(nat_text((-n) as nat)[i - 1]));
            }
        } else {
            assert(is_digit(s[i]));
        }
    }
}

/// What `int_text` writes is made of digits and, at its start only, `-`.
pub proof fn lemma_int_text_chars(n: int, i: int)
    requires
        0 <= i < int_text(n).len(),
    ensures
        is_digit(int_text(n)[i]) || (i == 0 && n < 0 && int_text(n)[i] == '-'),
{
    let s = int_text(n);
    let m = if n < 0 { (-n) as nat } else { n as nat };
    lemma_nat_text(m);
    if n < 0 {
        if i > 0 {
            assert(s[i] == nat_text(m)[i - 1]);
            assert(is_digit(nat_text(m)[i - 1]));
        }
    } else {
        assert(is_digit(s[i]));
    }
}

/// What `int_text` writes is plain ASCII.
pub proof fn lemma_int_text_ascii(n: int)
    ensures
        vstd::utf8::is_ascii_chars(int_text(n)),
{
    let s = int_text(n);
    let m = if n < 0 { (-n) as nat } else { n as nat };
    lemma_nat_text(m);
    assert forall|i: int| 0 <= i < s.len() implies '\0' <= #[trigger] s[i] <= '\u{7f}' by {
        if n < 0 {
            if i > 0 {
                assert(s[i] == nat_text(m)[i - 1]);
                assert(is_digit(nat_text(m)[i - 1]));
            }
        } else {
            assert(is_digit(s[i]));
        }
    }
}

/// A digit string writes a number that is not negative.
proof fn lemma_digits_value_nonneg(s: Seq<char>)
    requires
        all_digits(s),
    ensures
        0 <= digits_value(s),
    decreases s.len(),
{
    if s.len() > 0 {
        lemma_digits_value_nonneg(s.drop_last());
        assert(is_digit(s.last()));
    }
}

/// A digit string never loses value when more digits follow.
proof fn lemma_digits_value_grows(s: Seq<char>, k: int)
    requires
        all_digits(s),
        0 <= k <= s.len(),
    ensures
        0 <= digits_value(s.take(k)) <= digits_value(s),
    decreases s.len() - k,
{
    lemma_digits_value_nonneg(s.take(k));
    if k == s.len() {
        assert(s.take(k) =~= s);
    } else {
        lemma_digits_value_grows(s, k + 1);
        let t = s.take(k + 1);
        assert(t.drop_last() =~= s.take(k));
        assert(is_digit(t.last()));
    }
}

fn digit_of(d: u32) -> (c: char)
    requires
        d <= 9,
    ensures
        c == digit_char(d as int),
{
    ((d + 48) as u8) as char
}

/// Appends the decimal writing of `n` to `out`.
pub fn push_nat_text(out: &mut String, n: u32)
    ensures
        final(out)@ == old(out)@ + nat_text(n as nat),
    decreases n,
{
    if n < 10 {
        out.push(digit_of(n));
        assert(old(out)@.push(digit_char(n as int)) =~= old(out)@ + nat_text(n as nat));
    } else {
        push_nat_text(out, n / 10);
        out.push(digit_of(n % 10));
        let ghost head = old(out)@ + nat_text((n / 10) as nat);
        assert(head.push(digit_char((n % 10) as int)) =~= old(out)@ + nat_text(n as nat));
    }
}

/// Appends the decimal writing of `n` to `out`, as `i32::to_string` writes it.
pub fn push_i32_text(out: &mut String, n: i32)
    ensures
        final(out)@ == old(out)@ + int_text(n as int),
{
    if n < 0 {
        out.push('-');
        let wide: i64 = n as i64;
        let magnitude: u32 = (-wide) as u32;
        push_nat_text(out, magnitude);
        assert(old(out)@.push('-') + nat_text(magnitude as nat) =~= old(out)@ + int_text(
            n as int,
        ));
    } else {
        push_nat_text(out, n as u32);
    }
}

/// Reads `chars[from..to]` as an `i32`: an optional sign and then digits only.
pub fn parse_i32_chars(chars: &Vec<char>, from: usize, to: usize) -> (r: Option<i32>)
    requires
        from <= to <= chars.len(),
    ensures
        r == parse_i32(chars@.subrange(from as int, to as int)),
{
    let ghost s = chars@.subrange(from as int, to as int);
    let mut negative = false;
    let mut i: usize = from;
    if from < to && (chars[from] == '-' || chars[from] == '+') {
        negative = chars[from] == '-';
        i = from + 1;
    }
    let ghost body = chars@.subrange(i as int, to as int);
    assert(body =~= if i > from { s.skip(1) } else { s });
    if i == to {
        return None;
    }
    assert(parse_int(s) == if !all_digits(body) {
        None
    } else if negative {
        Some(-digits_value(body))
    } else {
        Some(digits_value(body))
    });
    let limit: i64 = if negative { 2147483648 } else { 2147483647 };
    let mut acc: i64 = 0;
    let start: usize = i;
    while i < to
        invariant
            start <= i <= to <= chars.len(),
            s == chars@.subrange(from as int, to as int),
            body == chars@.subrange(start as int, to as int),
            parse_int(s) == if !all_digits(body) {
                None
            } else if negative {
                Some(-digits_value(body))
            } else {
                Some(digits_value(body))
            },
            limit == if negative { 2147483648i64 } else { 2147483647i64 },
            all_digits(body.take(i - start)),
            acc == digits_value(body.take(i - start)),
            0 <= acc <= limit <= 2147483648,
        decreases to - i,
    {
        let c: char = chars[i];
        assert(c == body[i - start]);
        if !('0' <= c && c <= '9') {
            return None;
        }
        let d: i64 = (c as u32 - 48) as i64;
        let ghost next = body.take(i - start + 1);
        proof {
            assert(next.drop_last() =~= body.take(i - start));
            assert(next.last() == c);
        }
        acc = acc * 10 + d;
        if acc > limit {
            proof {
                assert forall|j: int| 0 <= j < body.len() && !is_digit(body[j]) implies !all_digits(
                    body,
                ) by {}
                if all_digits(body) {
                    lemma_digits_value_grows(body, i - start + 1);
                }
            }
            return None;
        }
        i = i + 1;
    }
    assert(body.take(to - start) =~= body);
    if negative {
        Some((-acc) as i32)
    } else {
        Some(acc as i32)
    }
}

/// Reads all of `s` as an `i32`.
pub fn parse_i32_str(s: &str) -> (r: Option<i32>)
    ensures
        r == parse_i32(s@),
{
    let chars = str_chars(s);
    assert(chars@.subrange(0, chars.len() as int) =~= s@);
    parse_i32_chars(&chars, 0, chars.len())
}

/// The natural number that `s` writes: an optional `+`, then one or more
/// ASCII digits and nothing else. Any other string gives `None`.
pub open spec fn parse_nat(s: Seq<char>) -> Option<int> {
    let signed = s.len() > 0 && s[0] == '+';
    let body = if signed { s.skip(1) } else { s };
    if body.len() == 0 || !all_digits(body) {
        None
    } else {
        Some(digits_value(body))
    }
}

/// As `parse_nat`, and the number must fit in a `usize`.
pub open spec fn parse_usize(s: Seq<char>) -> Option<usize> {
    match parse_nat(s) {
        Some(v) => if v <= usize::MAX { Some(v as usize) } else { None },
        None => None,
    }
}

/// Reads all of `chars` as a `usize`: an optional `+` and then digits only.
pub fn parse_usize_chars(chars: &Vec<char>) -> (r: Option<usize>)
    ensures
        r == parse_usize(chars@),
{
    let ghost s = chars@;
    let to: usize = chars.len();
    let mut i: usize = 0;
    if 0 < to && chars[0] == '+' {
        i = 1;
    }
    let ghost body = chars@.subrange(i as int, to as int);
    assert(body =~= if i > 0 { s.skip(1) } else { s });
    if i == to {
        return None;
    }
    let mut acc: usize = 0;
    let start: usize = i;
    while i < to
        invariant
            start <= i <= to,
            to == chars.len(),
            s == chars@,
            body == chars@.subrange(start as int, to as int),
            parse_nat(s) == if !all_digits(body) { None } else { Some(digits_value(body)) },
            all_digits(body.take(i - start)),
            acc == digits_value(body.take(i - start)),
        decreases to - i,
    {
        let c: char = chars[i];
        assert(c == body[i - start]);
        if !('0' <= c && c <= '9') {
            return None;
        }
        let d: usize = (c as u32 - 48) as usize;
        let ghost next = body.take(i - start + 1);
        proof {
            assert(next.drop_last() =~= body.take(i - start));
            assert(next.last() == c);
            if all_digits(body) {
                lemma_digits_value_grows(body, i - start + 1);
            }
        }
        let tens = match acc.checked_mul(10) {
            Some(t) => t,
            None => {
                return None;
            },
        };
        acc = match tens.checked_add(d) {
            Some(t) => t,
            None => {
                return None;
            },
        };
        i = i + 1;
    }
    assert(body.take(to - start) =~= body);
    Some(acc)
}

} // verus!
