use forkguard::{new, try_new, Flavor, Guard};

/// The process id that the tests hand to the guards as the current one.
fn current_pid() -> u32 {
    4242
}

#[test]
fn guard_has_common_interface() {
    let pid = current_pid();
    let _ = Guard::FLAVOR;
    let _ = Guard::try_new(pid);
    let mut guard = Guard::from_pid(pid);
    let _ = guard.detected_fork(pid);
    let _ = guard.flavor();
}

#[test]
fn debug_output_contains_flavor() {
    let guard = Guard::from_pid(current_pid());
    let debug_str = guard.debug_string();
    let flavor_str = format!("{:?}", guard.flavor());
    assert!(debug_str.contains("Guard"));
    assert!(debug_str.contains("flavor()"));
    assert!(debug_str.contains(&flavor_str));
}

#[test]
fn right_flavor_is_active() {
    let pid = current_pid();
    assert_eq!(Guard::FLAVOR, Flavor::Pid);

    assert_eq!(new(pid).flavor(), Guard::FLAVOR);
    assert_eq!(try_new(pid).unwrap().flavor(), Guard::FLAVOR);
}

#[test]
fn flavor_names_match_debug_output() {
    for flavor in [Flavor::Atfork, Flavor::Pid, Flavor::Noop] {
        assert_eq!(flavor.name(), format!("{:?}", flavor));
    }
}
