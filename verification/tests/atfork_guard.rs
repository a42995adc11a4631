use forkguard::atfork::Guard;
use forkguard::Flavor;

#[test]
fn atfork_registration_success_gives_guard() {
    let mut guard = Guard::try_new(0, 7).unwrap();
    assert!(!guard.detected_fork(7), "initial check should be false");
    assert!(guard.detected_fork(8), "child should detect the fork");
    assert!(!guard.detected_fork(8), "second check should not");
}

#[test]
fn atfork_registration_failure_gives_error_code() {
    let err = Guard::try_new(12, 0).unwrap_err();
    assert_eq!(err.code(), 12);
    assert_eq!(err.to_string(), "pthread_atfork() failed (code: 12)");
}

#[test]
fn atfork_error_message_negative_codes() {
    let err = Guard::try_new(-1, 0).unwrap_err();
    assert_eq!(err.code(), -1);
    assert_eq!(err.to_string(), "pthread_atfork() failed (code: -1)");
    let err = Guard::try_new(i32::MIN, 0).unwrap_err();
    assert_eq!(err.to_string(), "pthread_atfork() failed (code: -2147483648)");
}

#[test]
fn atfork_multiple_forks_each_reported() {
    let mut guard = Guard::try_new(0, 0).unwrap();
    assert!(guard.detected_fork(1));
    assert!(!guard.detected_fork(1));
    assert!(guard.detected_fork(2));
    assert!(!guard.detected_fork(2));
}

#[test]
fn atfork_flavor_and_debug() {
    let guard = Guard::try_new(0, 3).unwrap();
    assert_eq!(guard.flavor(), Flavor::Atfork);
    assert_eq!(Guard::FLAVOR, Flavor::Atfork);
    assert_eq!(guard.debug_string(), "Guard { flavor(): Atfork, last_fork_count: 3 }");
    let debug_str = guard.debug_string();
    assert!(debug_str.contains("flavor()"));
    assert!(debug_str.contains(&format!("{:?}", guard.flavor())));
}

#[test]
fn atfork_debug_string_follows_last_observation() {
    let mut guard = Guard::try_new(0, 0).unwrap();
    assert_eq!(guard.debug_string(), "Guard { flavor(): Atfork, last_fork_count: 0 }");
    assert!(guard.detected_fork(25));
    assert_eq!(guard.debug_string(), "Guard { flavor(): Atfork, last_fork_count: 25 }");
}
