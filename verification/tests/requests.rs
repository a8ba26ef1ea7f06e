use rustle::middlewares::auth::{authenticate, bearer_token, Auth, UserIdentity};
use rustle::middlewares::log::{Log, RequestId};
use rustle::types::err::GlobalUserError;
use rustle::utils::paseto::generate_access_token;
use rustle::utils::request::{
    allowed_image_mime, check_content_length, check_mime, get_user_id, UNKNOWN_USER_ID,
};

const KEY_TEXT: &str = "AAECAwQFBgcICQoLDA0ODxAREhMUFRYXGBkaGxwdHh8=";

#[test]
fn user_id_of_a_request() {
    assert_eq!(get_user_id(Some(&UserIdentity { id: 42 })), 42);
    assert_eq!(get_user_id(Some(&UserIdentity { id: -1 })), -1);
    assert_eq!(get_user_id(None), UNKNOWN_USER_ID);
    assert_eq!(get_user_id(None), 0);
}

#[test]
fn content_length_must_be_there_and_read() {
    let required = Err(GlobalUserError::PayloadLengthRequired.to_error());
    assert_eq!(check_content_length(None, 100), required);
    for bad in ["", "abc", "-1", "1.0", " 5", "5 ", "+", "0x10", "99999999999999999999999999"] {
        assert_eq!(check_content_length(Some(bad), 100), required);
    }
}

#[test]
fn content_length_must_not_be_above_the_most() {
    assert_eq!(check_content_length(Some("0"), 100), Ok(()));
    assert_eq!(check_content_length(Some("100"), 100), Ok(()));
    assert_eq!(check_content_length(Some("+100"), 100), Ok(()));
    assert_eq!(check_content_length(Some("000100"), 100), Ok(()));
    assert_eq!(check_content_length(Some("0"), 0), Ok(()));
    let large = Err(GlobalUserError::PayloadTooLarge.to_error());
    assert_eq!(check_content_length(Some("101"), 100), large);
    assert_eq!(check_content_length(Some("1"), 0), large);
    let max = usize::MAX.to_string();
    assert_eq!(check_content_length(Some(max.as_str()), usize::MAX), Ok(()));
    assert_eq!(check_content_length(Some(max.as_str()), usize::MAX - 1), large);
}

#[test]
fn content_length_agrees_with_the_standard_parser() {
    for text in ["7", "+7", "-7", "07", "", "７", "18446744073709551615", "18446744073709551616"] {
        let expected = match text.parse::<usize>() {
            Ok(n) if n > 1000 => Err(GlobalUserError::PayloadTooLarge.to_error()),
            Ok(_) => Ok(()),
            Err(_) => Err(GlobalUserError::PayloadLengthRequired.to_error()),
        };
        assert_eq!(check_content_length(Some(text), 1000), expected);
    }
}

#[test]
fn image_mimes_are_matched_whole() {
    let mimes = allowed_image_mime();
    for good in ["image/jpeg", "image/png", "image/gif", "image/bmp", "image/webp", "image/tiff"] {
        assert_eq!(check_mime(Some(good), &mimes), Ok(good));
    }
    let invalid = Err(GlobalUserError::InvalidMime.to_error());
    for bad in ["", "image", "image/", "image/jpg", "image/pngx", "image/pn", "IMAGE/PNG", "text/html", " image/png"] {
        assert_eq!(check_mime(Some(bad), &mimes), invalid);
    }
    assert_eq!(check_mime(None, &mimes), invalid);
}

#[test]
fn bearer_token_follows_the_prefix() {
    assert_eq!(bearer_token(Some("Bearer abc")), Ok(String::from("abc")));
    assert_eq!(bearer_token(Some("Bearer   abc.def \t")), Ok(String::from("abc.def")));
    assert_eq!(bearer_token(Some("Bearer ")), Ok(String::from("")));
    assert_eq!(bearer_token(Some("Bearer a b")), Ok(String::from("a b")));
}

#[test]
fn header_without_the_prefix_is_unauthorized() {
    let unauthorized = Err(GlobalUserError::StatusUnauthorized.to_error());
    assert_eq!(bearer_token(None), unauthorized);
    for bad in ["", "Bearer", "bearer abc", "Basic abc", " Bearer abc", "Bearerabc", "BEARER abc"] {
        assert_eq!(bearer_token(Some(bad)), unauthorized);
    }
}

#[test]
fn authenticate_gives_the_identity_of_the_token() {
    let token = generate_access_token(KEY_TEXT, 17).unwrap();
    let header = format!("Bearer {token}");
    assert_eq!(authenticate(KEY_TEXT, Some(header.as_str())), Ok(UserIdentity { id: 17 }));
    let padded = format!("Bearer  {token}  ");
    assert_eq!(authenticate(KEY_TEXT, Some(padded.as_str())), Ok(UserIdentity { id: 17 }));
    let unauthorized = Err(GlobalUserError::StatusUnauthorized.to_error());
    assert_eq!(authenticate(KEY_TEXT, Some(token.as_str())), unauthorized);
    assert_eq!(authenticate(KEY_TEXT, None), unauthorized);
    assert_eq!(authenticate(KEY_TEXT, Some("Bearer nonsense")), unauthorized);
    assert_eq!(authenticate("", Some(header.as_str())), unauthorized);
}

#[test]
fn request_id_has_the_shape_of_a_uuid() {
    let a = RequestId::new();
    let b = RequestId::default();
    assert_ne!(a.0, b.0);
    for id in [a, b] {
        let chars: Vec<char> = id.0.chars().collect();
        assert_eq!(chars.len(), 36);
        for (i, c) in chars.iter().enumerate() {
            if i == 8 || i == 13 || i == 18 || i == 23 {
                assert_eq!(*c, '-');
            } else {
                assert!(c.is_ascii_digit() || ('a'..='f').contains(c));
            }
        }
        assert_eq!(chars[14], '4');
    }
}

#[test]
fn middlewares_wrap_their_service() {
    assert_eq!(Auth.create(5u8).service, 5u8);
    assert_eq!(Log.create("inner").service, "inner");
}

#[test]
fn bearer_token_loses_every_kind_of_white_space_at_its_ends() {
    assert_eq!(bearer_token(Some("Bearer \u{3000}\tabc\u{A0}\r\n")), Ok(String::from("abc")));
    assert_eq!(bearer_token(Some("Bearer \u{200B}abc")), Ok(String::from("\u{200B}abc")));
    assert_eq!(bearer_token(Some("Bearer  \t ")), Ok(String::new()));
    for header in ["Bearer  a b  ", "Bearer x", "Bearer \n\u{2003}y\u{2003}z\u{85}"] {
        assert_eq!(bearer_token(Some(header)), Ok(String::from(header[7..].trim())));
    }
}
