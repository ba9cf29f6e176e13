use kube_switch::complete::{filter_by_prefix, starts_with_prefix};

#[test]
fn starts_with_prefix_compares_characters() {
    assert!(starts_with_prefix(&String::from("alpha"), &String::from("alp")));
    assert!(starts_with_prefix(&String::from("alp"), &String::from("alp")));
    assert!(!starts_with_prefix(&String::from("al"), &String::from("alp")));
    assert!(!starts_with_prefix(&String::from("beta"), &String::from("alp")));
    assert!(starts_with_prefix(&String::from("anything"), &String::from("")));
}

#[test]
fn filter_by_prefix_keeps_matches_in_order() {
    let candidates = vec![
        String::from("alpha"),
        String::from("beta"),
        String::from("alp"),
        String::from("gamma"),
    ];
    let r = filter_by_prefix(&candidates, &String::from("alp"));
    assert_eq!(r, vec![String::from("alpha"), String::from("alp")]);
}

#[test]
fn filter_by_prefix_with_empty_prefix_keeps_everything() {
    let candidates = vec![String::from("a"), String::from("b")];
    let r = filter_by_prefix(&candidates, &String::new());
    assert_eq!(r, candidates);
}

#[test]
fn filter_by_prefix_without_matches_is_empty() {
    let candidates = vec![String::from("a"), String::from("b")];
    let r = filter_by_prefix(&candidates, &String::from("z"));
    assert!(r.is_empty());
}
