use provisioner::slug::{into_slug, slug_from_lowered, validate_slug};
use provisioner::team;

#[test]
fn slug_of_text_is_trimmed_lowered_and_dashed() {
    assert_eq!(into_slug("  Hello World  ", None), "hello-world");
    assert_eq!(into_slug("My-App_2!", None), "my-app2");
    assert_eq!(into_slug("ÉCOLE", None), "cole");
    assert_eq!(into_slug("", None), "");
}

#[test]
fn slug_suffix_is_right_aligned_in_four_places() {
    assert_eq!(into_slug("Blog", Some(7)), "blog-   7");
    assert_eq!(into_slug("Blog", Some(42)), "blog-  42");
    assert_eq!(into_slug("Blog", Some(999)), "blog- 999");
    assert_eq!(into_slug("Blog", Some(1234)), "blog-1234");
    assert_eq!(into_slug("Blog", Some(0)), "blog-   0");
}

#[test]
fn slug_from_lowered_text() {
    assert_eq!(slug_from_lowered("a b-c", true, None), "a-b-c");
    assert_eq!(slug_from_lowered("a b-c", false, None), "a-bc");
    assert_eq!(slug_from_lowered("ABC", true, None), "");
}

#[test]
fn team_slug_drops_dashes_and_keeps_spaces_as_dashes() {
    assert_eq!(team::into_slug("My Team-1!", None), "my-team1");
    assert_eq!(team::into_slug(" Ops ", None), "-ops-");
    assert_eq!(team::into_slug("Ops", Some(5)), "ops-   5");
}

#[test]
fn slug_validity() {
    assert!(validate_slug("blog"));
    assert!(validate_slug("my-app-2"));
    assert!(!validate_slug(""));
    assert!(!validate_slug("Blog"));
    assert!(!validate_slug("my app"));
    assert!(!validate_slug("a.b"));
    assert!(team::validate_slug("team-1"));
    assert!(!team::validate_slug("team_1"));
}
