use wallpaper_setter::outcome::{Decision, SkipReason};
use wallpaper_setter::report::{push_decimal, report_line};

#[test]
fn line_for_an_application() {
    assert_eq!(report_line(Decision::Apply, 0, "DEV1"), "Setting wallpaper on monitor 0: DEV1");
    assert_eq!(report_line(Decision::Apply, 12, "a: b"), "Setting wallpaper on monitor 12: a: b");
}

#[test]
fn line_for_an_empty_id() {
    assert_eq!(
        report_line(Decision::Skip(SkipReason::EmptyId), 3, "  "),
        "Monitor 3: Skipped (empty ID)"
    );
}

#[test]
fn line_for_no_match() {
    assert_eq!(
        report_line(Decision::Skip(SkipReason::NoMatch), 4294967295, "DEV1"),
        "Monitor 4294967295: Skipped (no match)"
    );
}

#[test]
fn decimal_is_what_std_prints() {
    for n in [0u32, 1, 9, 10, 11, 99, 100, 101, 909, 1000, 65535, 123456789, u32::MAX] {
        let mut out = String::from("n=");
        push_decimal(&mut out, n);
        assert_eq!(out, format!("n={}", n));
    }
}
