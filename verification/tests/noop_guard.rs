use forkguard::noop::Guard;
use forkguard::Flavor;

#[test]
fn noop_never_reports_a_fork() {
    let mut guard = Guard::default();
    assert!(!guard.detected_fork());
    assert!(!guard.detected_fork());
    let mut copy = guard.clone();
    assert!(!copy.detected_fork());
}

#[test]
fn noop_try_new_succeeds() {
    let mut guard = Guard::try_new().unwrap();
    assert!(!guard.detected_fork());
}

#[test]
fn noop_flavor_and_debug() {
    let guard = Guard::default();
    assert_eq!(guard.flavor(), Flavor::Noop);
    assert_eq!(Guard::FLAVOR, Flavor::Noop);
    assert_eq!(guard.debug_string(), "Guard { flavor(): Noop }");
}
