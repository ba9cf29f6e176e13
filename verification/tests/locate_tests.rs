use kube_switch::locate::resolve_config_path;

#[test]
fn override_value_wins_when_set_and_nonempty() {
    let r = resolve_config_path(Some(String::from("/tmp/kc")), Some(String::from("/home/u")));
    assert_eq!(r.ok(), Some(String::from("/tmp/kc")));
}

#[test]
fn home_fallback_appends_the_fixed_subpath() {
    let r = resolve_config_path(None, Some(String::from("/home/u")));
    assert_eq!(r.ok(), Some(String::from("/home/u/.kube/config")));
}

#[test]
fn empty_override_falls_back_to_home() {
    let r = resolve_config_path(Some(String::new()), Some(String::from("/home/u")));
    assert_eq!(r.ok(), Some(String::from("/home/u/.kube/config")));
}

#[test]
fn missing_home_fails() {
    assert!(resolve_config_path(None, None).is_err());
}

#[test]
fn empty_home_fails_with_a_message() {
    let r = resolve_config_path(Some(String::new()), Some(String::new()));
    let e = match r {
        Err(e) => e,
        Ok(_) => panic!("expected an error"),
    };
    assert_eq!(e.message(), "HOME environment variable empty or unset");
}
