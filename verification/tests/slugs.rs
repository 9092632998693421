use pulse_commerce::slug::{slug_from_lowercase, slugify};

#[test]
fn slugify_names() {
    assert_eq!(slugify("  Hello, World!  "), "hello-world");
    assert_eq!(slugify("Ünïcode Café 2024"), "n-code-caf-2024");
    assert_eq!(slugify("---"), "");
    assert_eq!(slugify(""), "");
    assert_eq!(slugify("Smart   Phone -- X"), "smart-phone-x");
}

#[test]
fn slug_of_a_slug_is_itself() {
    for name in ["Hello, World!", "a--b", "  -x- ", "Gift Card (50$)"] {
        let once = slugify(name);
        assert_eq!(slugify(&once), once);
        assert_eq!(slug_from_lowercase(&once), once);
    }
}

#[test]
fn slugs_hold_no_capitals_and_no_stray_dashes() {
    for name in ["ÀB CD", "MiXeD--Case__Name", "  ÉCOLE 42 ", "A", "--Z--"] {
        let s = slugify(name);
        assert!(s.chars().all(|c| c.is_ascii_lowercase() || c.is_ascii_digit() || c == '-'));
        assert!(!s.starts_with('-') && !s.ends_with('-') && !s.contains("--"));
    }
    assert_eq!(slugify("ÀB CD"), "b-cd");
    assert_eq!(slugify("MiXeD--Case__Name"), "mixed-case-name");
}
