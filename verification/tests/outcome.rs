use wallpaper_setter::outcome::{decide, Decision, SkipReason};

fn verdict(target: Option<&str>, id: &str) -> Decision {
    decide(&target.map(|t| t.to_string()), &id.to_string())
}

#[test]
fn decide_without_target_applies() {
    assert_eq!(verdict(None, "DEV1"), Decision::Apply);
    assert_eq!(verdict(None, " DEV1 "), Decision::Apply);
}

#[test]
fn decide_with_equal_target_applies() {
    assert_eq!(verdict(Some("DEV1"), "DEV1"), Decision::Apply);
}

#[test]
fn decide_with_other_target_skips_as_no_match() {
    assert_eq!(verdict(Some("DEV2"), "DEV1"), Decision::Skip(SkipReason::NoMatch));
    assert_eq!(verdict(Some("dev1"), "DEV1"), Decision::Skip(SkipReason::NoMatch));
    assert_eq!(verdict(Some("DEV1"), "DEV1\0"), Decision::Skip(SkipReason::NoMatch));
    assert_eq!(verdict(Some(""), "DEV1"), Decision::Skip(SkipReason::NoMatch));
}

#[test]
fn decide_skips_blank_ids_as_empty() {
    for target in [None, Some(""), Some("  "), Some("DEV1")] {
        assert_eq!(verdict(target, ""), Decision::Skip(SkipReason::EmptyId));
        assert_eq!(verdict(target, "  "), Decision::Skip(SkipReason::EmptyId));
        assert_eq!(verdict(target, "\t\n"), Decision::Skip(SkipReason::EmptyId));
    }
}
