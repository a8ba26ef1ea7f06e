use rustle::utils::decimal::{
    parse_i32_chars, parse_i32_str, parse_usize_chars, push_i32_text, push_nat_text,
};
use rustle::utils::sorted::{contains_sorted, insert_sorted, lower_bound, remove_value};
use rustle::utils::text::{
    chars_to_string, same_text, split_chars, str_chars, trim_chars, white_space,
};

fn chars(s: &str) -> Vec<char> {
    s.chars().collect()
}

#[test]
fn numbers_are_written_as_to_string_writes_them() {
    for n in [0, 1, 9, 10, 99, 100, 12345, -1, -10, i32::MAX, i32::MIN, 1000000000] {
        let mut out = String::from("x=");
        push_i32_text(&mut out, n);
        assert_eq!(out, format!("x={n}"));
    }
    for n in [0u32, 7, 10, 4294967295, 1000] {
        let mut out = String::new();
        push_nat_text(&mut out, n);
        assert_eq!(out, n.to_string());
    }
}

#[test]
fn numbers_are_read_as_the_standard_parser_reads_them() {
    for s in [
        "0", "7", "-7", "+7", "007", "-0", "+0", "", "-", "+", "--1", "+-1", "1a", "a1", " 1",
        "2147483647", "2147483648", "-2147483648", "-2147483649", "00000000000000000001",
        "99999999999999999999", "1,2", "٣",
    ] {
        assert_eq!(parse_i32_str(s), s.parse::<i32>().ok());
        assert_eq!(parse_usize_chars(&chars(s)), s.parse::<usize>().ok());
    }
}

#[test]
fn part_of_a_text_is_read() {
    let text = chars("ab-12,+3");
    assert_eq!(parse_i32_chars(&text, 2, 5), Some(-12));
    assert_eq!(parse_i32_chars(&text, 3, 5), Some(12));
    assert_eq!(parse_i32_chars(&text, 6, 8), Some(3));
    assert_eq!(parse_i32_chars(&text, 0, 8), None);
    assert_eq!(parse_i32_chars(&text, 4, 4), None);
    assert_eq!(parse_i32_chars(&text, 2, 3), None);
}

#[test]
fn texts_are_cut_as_split_cuts_them() {
    for s in ["", "a", "a,b", ",", "a,", ",a", "a,,b", ",,,", "äö,ü"] {
        let expected: Vec<Vec<char>> = s.split(',').map(chars).collect();
        assert_eq!(split_chars(&chars(s), ','), expected);
    }
    assert_eq!(split_chars(&chars("a.b"), ','), vec![chars("a.b")]);
}

#[test]
fn texts_and_characters_convert_both_ways() {
    for s in ["", "abc", "äöü€𝄞"] {
        assert_eq!(str_chars(s), chars(s));
        assert_eq!(chars_to_string(&chars(s)), s);
    }
    assert!(same_text("abc", "abc"));
    assert!(same_text("", ""));
    assert!(!same_text("abc", "abd"));
    assert!(!same_text("abc", "ab"));
}

#[test]
fn sorted_search_finds_what_is_there() {
    let group = vec![-5, 0, 3, 8, 13];
    for x in [-5, 0, 3, 8, 13] {
        assert!(contains_sorted(&group, x));
    }
    for x in [-6, -1, 1, 9, 14, i32::MIN, i32::MAX] {
        assert!(!contains_sorted(&group, x));
    }
    assert!(!contains_sorted(&vec![], 1));
    assert_eq!(lower_bound(&group, -9), 0);
    assert_eq!(lower_bound(&group, 3), 2);
    assert_eq!(lower_bound(&group, 4), 3);
    assert_eq!(lower_bound(&group, 99), 5);
}

#[test]
fn sorted_insert_and_removal() {
    let mut group = vec![];
    for x in [5, 1, 3, 3, 9, 1, -2] {
        insert_sorted(&mut group, x);
    }
    assert_eq!(group, vec![-2, 1, 3, 5, 9]);
    remove_value(&mut group, 3);
    assert_eq!(group, vec![-2, 1, 5, 9]);
    remove_value(&mut group, 3);
    assert_eq!(group, vec![-2, 1, 5, 9]);
    let mut any = vec![4, 2, 4, 4, 1];
    remove_value(&mut any, 4);
    assert_eq!(any, vec![2, 1]);
}

#[test]
fn white_space_is_what_the_standard_library_calls_so() {
    let mut count = 0;
    for n in 0..=0x10FFFFu32 {
        if let Some(c) = char::from_u32(n) {
            assert_eq!(white_space(c), c.is_whitespace());
            if white_space(c) {
                count += 1;
            }
        }
    }
    assert_eq!(count, 25);
    assert!(white_space(' ') && white_space('\t') && white_space('\n') && white_space('\u{3000}'));
    assert!(!white_space('a') && !white_space('\u{200B}') && !white_space('\u{180E}'));
}

#[test]
fn trim_takes_white_space_off_both_ends_only() {
    for s in [
        "", " ", "   ", "a", " a", "a ", " a b ", "\t\n a \r\n", "\u{3000}x\u{A0}", "a\u{200B} ",
        " \u{2028}middle \u{85} stays\u{2029} ", "x  ", "  x",
    ] {
        let kept: String = trim_chars(&chars(s)).into_iter().collect();
        assert_eq!(kept, s.trim());
    }
    assert_eq!(trim_chars(&chars(" a b ")), chars("a b"));
    assert_eq!(trim_chars(&chars(" \t ")), chars(""));
}
