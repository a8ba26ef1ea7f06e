use rustle::db::rbac::{
    role_str_to_vec, role_vec_to_str, RBACUserError, DEFAULT_ROLE_STR, MAX_ROLE_STR_LEN,
};

#[test]
fn encode_joins_ids_with_commas() {
    assert_eq!(role_vec_to_str(vec![0, 1]).unwrap(), "0,1");
    assert_eq!(
        role_vec_to_str(vec![12, -7, 2147483647, -2147483648]).unwrap(),
        "12,-7,2147483647,-2147483648"
    );
    assert_eq!(role_vec_to_str(vec![]).unwrap(), "");
    assert_eq!(role_vec_to_str(vec![5]).unwrap(), "5");
}

#[test]
fn encode_keeps_order_and_repeats() {
    assert_eq!(role_vec_to_str(vec![3, 1, 3, 2]).unwrap(), "3,1,3,2");
}

#[test]
fn encode_of_exactly_the_limit_is_taken() {
    let ids: Vec<i32> = vec![7; 128];
    let text = role_vec_to_str(ids).unwrap();
    assert_eq!(text.len(), MAX_ROLE_STR_LEN);
    assert!(text.starts_with("7,7,"));
    assert!(text.ends_with(",7"));
}

#[test]
fn encode_over_the_limit_is_refused_whole() {
    let mut ids: Vec<i32> = vec![7; 127];
    ids.push(10);
    let err = role_vec_to_str(ids).unwrap_err();
    assert_eq!(err, RBACUserError::RoleTooLong.to_error());
    assert_eq!(err.message(), "role too long");
    assert_eq!(err.status_code().as_u16(), 200);
    let err = role_vec_to_str(vec![10000; 52]).unwrap_err();
    assert_eq!(err, RBACUserError::RoleTooLong.to_error());
}

#[test]
fn decode_empty_string_is_empty() {
    assert_eq!(role_str_to_vec(String::from("")).unwrap(), Vec::<i32>::new());
}

#[test]
fn decode_reads_ids_in_order() {
    assert_eq!(role_str_to_vec(String::from("3,1,2")).unwrap(), vec![3, 1, 2]);
    assert_eq!(role_str_to_vec(String::from("+5,-0,007")).unwrap(), vec![5, 0, 7]);
    assert_eq!(
        role_str_to_vec(String::from("2147483647,-2147483648")).unwrap(),
        vec![2147483647, -2147483648]
    );
    assert_eq!(role_str_to_vec(String::from(DEFAULT_ROLE_STR)).unwrap(), vec![0, 1]);
}

#[test]
fn decode_rejects_non_numeric_token() {
    for bad in [
        "a", "1,,2", "1,", ",1", ",", " 1", "1 ", "1,x", "-", "+", "+-1", "2147483648",
        "-2147483649", "99999999999999999999", "1.5", "0x10", "1_000", "١",
    ] {
        let err = role_str_to_vec(String::from(bad)).unwrap_err();
        assert_eq!(err, RBACUserError::RoleStrCorrupted.to_error());
        assert_eq!(err.message(), "role str corrupted");
    }
}

#[test]
fn decode_gives_back_what_encode_wrote() {
    let cases: Vec<Vec<i32>> = vec![
        vec![],
        vec![0],
        vec![0, 1],
        vec![-1, 1, -1],
        vec![2147483647, -2147483648, 0, 10, 100, 1000000000],
        vec![9; 128],
    ];
    for ids in cases {
        let text = role_vec_to_str(ids.clone()).unwrap();
        assert_eq!(role_str_to_vec(text).unwrap(), ids);
    }
}

#[test]
fn decode_agrees_with_the_standard_parser() {
    for text in ["1,2,3", "+1", "-1", "00", "1,a", "", "4294967296", " ", "1, 2"] {
        let expected: Option<Vec<i32>> = if text.is_empty() {
            Some(vec![])
        } else {
            text.split(',').map(|t| t.parse::<i32>().ok()).collect()
        };
        assert_eq!(role_str_to_vec(String::from(text)).ok(), expected);
    }
}
