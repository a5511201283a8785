use jitstreamer::version::{part_value, version_ok};

#[test]
fn current_and_newer_versions_pass() {
    assert!(version_ok("0.2.0"));
    assert!(version_ok("0.2.1"));
    assert!(version_ok("0.3"));
    assert!(version_ok("0.2.0.7"));
    assert!(version_ok("+0.+2.0"));
}

#[test]
fn older_or_malformed_versions_fail() {
    assert!(!version_ok("0.1.9"));
    assert!(!version_ok(""));
    assert!(!version_ok("abc"));
    assert!(!version_ok("0.256.0"));
    assert!(!version_ok("0.x.0"));
    // Components are compared one by one, not as a whole.
    assert!(!version_ok("1.0.0"));
}

#[test]
fn parts_read_as_bytes() {
    let chars = |s: &str| s.chars().collect::<Vec<char>>();
    assert_eq!(part_value(&chars("17")), 17);
    assert_eq!(part_value(&chars("+5")), 5);
    assert_eq!(part_value(&chars("255")), 255);
    assert_eq!(part_value(&chars("256")), 0);
    assert_eq!(part_value(&chars("99999")), 0);
    assert_eq!(part_value(&chars("")), 0);
    assert_eq!(part_value(&chars("+")), 0);
    assert_eq!(part_value(&chars("1a")), 0);
    assert_eq!(part_value(&chars("007")), 7);
}
