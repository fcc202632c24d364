use dollhouse::mime::{is_mime_allowed, MimeType};

fn mime(s: &str) -> MimeType {
    MimeType::parse(s).unwrap()
}

#[test]
fn test_is_mime_allowed() {
    // Test PNG when nothing is allowed.
    assert_eq!(is_mime_allowed(&mime("image/png"), &vec![]), false);

    // Test PNG when PNG is allowed.
    assert_eq!(
        is_mime_allowed(&mime("image/png"), &vec![mime("image/png")]),
        true
    );

    // Test PNG when only JPG is allowed.
    assert_eq!(
        is_mime_allowed(&mime("image/png"), &vec![mime("image/jpeg")]),
        false
    );

    // Test PNG when any image subtype is allowed.
    assert_eq!(
        is_mime_allowed(&mime("image/png"), &vec![mime("image/*")]),
        true
    );

    // Test PNG when anything is allowed.
    assert_eq!(is_mime_allowed(&mime("image/png"), &vec![mime("*/*")]), true);

    // Test HTML when any image subtype is enabled.
    assert_eq!(
        is_mime_allowed(&mime("text/html"), &vec![mime("image/*")]),
        false
    );

    // Test PNG when images and text are enabled.
    assert_eq!(
        is_mime_allowed(&mime("image/png"), &vec![mime("text/*"), mime("image/*")]),
        true
    );
}

#[test]
fn parse_splits_at_first_slash() {
    assert!(MimeType::parse("image/png").is_some());
    assert!(MimeType::parse("noslash").is_none());
    assert!(MimeType::parse("/png").is_none());
    assert!(MimeType::parse("image/").is_none());
    assert!(MimeType::parse("").is_none());
}
