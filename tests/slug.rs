use realworld::slug::{create_slug, hyphenate};

#[test]
fn title_becomes_slug() {
    assert_eq!(create_slug("A New Post"), "a-new-post");
}

#[test]
fn hyphenate_keeps_case() {
    assert_eq!(hyphenate("How to train your Dragon"), "How-to-train-your-Dragon");
    assert_eq!(hyphenate(""), "");
    assert_eq!(hyphenate("  "), "--");
}

#[test]
fn slug_lowercases_beyond_ascii() {
    assert_eq!(create_slug("Ünïcode Títle"), "ünïcode-títle");
    assert_eq!(create_slug(""), "");
}

#[test]
fn slug_of_slug_is_unchanged() {
    let once = create_slug("How To Train Your DRAGON 2");
    assert_eq!(once, "how-to-train-your-dragon-2");
    assert_eq!(create_slug(&once), once);
    assert!(!once.chars().any(|c| c.is_ascii_uppercase() || c == ' '));
}
