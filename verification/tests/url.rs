use kernel::url::{find_separator, has_scheme, path, SEPARATOR};

#[test]
fn the_separator_is_the_colon() {
    assert_eq!(SEPARATOR, b':');
}

#[test]
fn the_first_colon_ends_the_scheme() {
    assert_eq!(find_separator(b"file:///background.bmp"), Some(4));
    assert_eq!(find_separator(b"http://host:80/index"), Some(4));
    assert_eq!(find_separator(b":rest"), Some(0));
    assert_eq!(find_separator(b"tail:"), Some(4));
}

#[test]
fn an_identifier_without_colon_has_no_scheme() {
    assert_eq!(find_separator(b"background.bmp"), None);
    assert_eq!(find_separator(b""), None);
    assert!(!has_scheme(b"file", b"file"));
    assert!(!has_scheme(b"", b""));
    assert_eq!(path(b"file"), Vec::<u8>::new());
}

#[test]
fn the_scheme_is_compared_whole() {
    assert!(has_scheme(b"file:///background.bmp", b"file"));
    assert!(!has_scheme(b"file:///background.bmp", b"fil"));
    assert!(!has_scheme(b"file:///background.bmp", b"files"));
    assert!(!has_scheme(b"file:///background.bmp", b"http"));
    assert!(!has_scheme(b"file:///background.bmp", b"file:"));
    assert!(has_scheme(b":x", b""));
    assert!(has_scheme(b"http://host:80/", b"http"));
}

#[test]
fn the_path_is_what_follows_the_first_colon() {
    assert_eq!(path(b"file:///background.bmp"), b"///background.bmp".to_vec());
    assert_eq!(path(b"http://host:80/index"), b"//host:80/index".to_vec());
    assert_eq!(path(b"random:"), Vec::<u8>::new());
    assert_eq!(path(b":x"), b"x".to_vec());
}
