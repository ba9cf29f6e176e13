use kube_switch::engine::{set_namespace, switch_context, Outcome, RejectReason};
use kube_switch::model::{ConfigDocument, ContextDetails, ContextEntry};

fn entry(name: &str, namespace: Option<&str>) -> ContextEntry {
    ContextEntry {
        name: String::from(name),
        context: Some(ContextDetails {
            namespace: namespace.map(String::from),
            rest: kube::config::Context::default(),
        }),
        rest: kube::config::NamedContext::default(),
    }
}

fn entry_without_details(name: &str) -> ContextEntry {
    ContextEntry {
        name: String::from(name),
        context: None,
        rest: kube::config::NamedContext::default(),
    }
}

fn doc(current: Option<&str>, contexts: Vec<ContextEntry>) -> ConfigDocument {
    ConfigDocument {
        current_context: current.map(String::from),
        contexts,
        rest: kube::config::Kubeconfig::default(),
    }
}

fn namespace_of(d: &ConfigDocument, name: &str) -> Option<String> {
    for e in &d.contexts {
        if e.name == name {
            return e.context.as_ref().and_then(|c| c.namespace.clone());
        }
    }
    panic!("no context named {}", name);
}

fn sample() -> ConfigDocument {
    doc(Some("a"), vec![entry("a", Some("x")), entry("b", Some("y"))])
}

#[test]
fn set_namespace_applies_to_current_context_only() {
    let mut d = sample();
    let r = set_namespace(&mut d, &String::from("z"));
    assert_eq!(r, Outcome::Applied);
    assert_eq!(namespace_of(&d, "a"), Some(String::from("z")));
    assert_eq!(namespace_of(&d, "b"), Some(String::from("y")));
    assert_eq!(d.current_context, Some(String::from("a")));
}

#[test]
fn switch_context_applies_and_keeps_namespaces() {
    let mut d = sample();
    let r = switch_context(&mut d, &String::from("b"));
    assert_eq!(r, Outcome::Applied);
    assert_eq!(d.current_context, Some(String::from("b")));
    assert_eq!(namespace_of(&d, "a"), Some(String::from("x")));
    assert_eq!(namespace_of(&d, "b"), Some(String::from("y")));
}

#[test]
fn switch_context_to_unknown_name_is_rejected() {
    let mut d = sample();
    let r = switch_context(&mut d, &String::from("c"));
    assert_eq!(r, Outcome::Rejected(RejectReason::UnknownContext));
    assert_eq!(d.current_context, Some(String::from("a")));
    assert_eq!(namespace_of(&d, "a"), Some(String::from("x")));
    assert_eq!(namespace_of(&d, "b"), Some(String::from("y")));
}

#[test]
fn set_namespace_without_current_context_is_rejected() {
    let mut d = doc(None, vec![entry("a", Some("x"))]);
    let r = set_namespace(&mut d, &String::from("x"));
    assert_eq!(r, Outcome::Rejected(RejectReason::NoCurrentContext));
    assert_eq!(d.current_context, None);
    assert_eq!(namespace_of(&d, "a"), Some(String::from("x")));
}

#[test]
fn switch_context_twice_reports_noop_the_second_time() {
    let mut d = sample();
    assert_eq!(switch_context(&mut d, &String::from("b")), Outcome::Applied);
    let r = switch_context(&mut d, &String::from("b"));
    assert_eq!(r, Outcome::NoOp);
    assert_eq!(d.current_context, Some(String::from("b")));
    assert_eq!(namespace_of(&d, "a"), Some(String::from("x")));
    assert_eq!(namespace_of(&d, "b"), Some(String::from("y")));
}

#[test]
fn set_namespace_twice_reports_noop_the_second_time() {
    let mut d = sample();
    assert_eq!(set_namespace(&mut d, &String::from("z")), Outcome::Applied);
    let r = set_namespace(&mut d, &String::from("z"));
    assert_eq!(r, Outcome::NoOp);
    assert_eq!(namespace_of(&d, "a"), Some(String::from("z")));
}

#[test]
fn switch_context_to_the_already_current_name_is_noop() {
    let mut d = sample();
    let r = switch_context(&mut d, &String::from("a"));
    assert_eq!(r, Outcome::NoOp);
    assert_eq!(d.current_context, Some(String::from("a")));
}

#[test]
fn set_namespace_to_the_present_value_is_noop() {
    let mut d = sample();
    let r = set_namespace(&mut d, &String::from("x"));
    assert_eq!(r, Outcome::NoOp);
    assert_eq!(namespace_of(&d, "a"), Some(String::from("x")));
}

#[test]
fn set_namespace_on_entry_without_details_is_rejected() {
    let mut d = doc(Some("a"), vec![entry_without_details("a"), entry("b", Some("y"))]);
    let r = set_namespace(&mut d, &String::from("z"));
    assert_eq!(r, Outcome::Rejected(RejectReason::MalformedContext));
    assert!(d.contexts[0].context.is_none());
    assert_eq!(namespace_of(&d, "b"), Some(String::from("y")));
}

#[test]
fn set_namespace_with_dangling_current_context_is_rejected() {
    let mut d = doc(Some("gone"), vec![entry("a", Some("x"))]);
    let r = set_namespace(&mut d, &String::from("z"));
    assert_eq!(r, Outcome::Rejected(RejectReason::MalformedContext));
    assert_eq!(namespace_of(&d, "a"), Some(String::from("x")));
}

#[test]
fn set_namespace_updates_only_the_first_entry_of_a_duplicated_name() {
    let mut d = doc(Some("a"), vec![entry("a", Some("x")), entry("a", Some("y"))]);
    let r = set_namespace(&mut d, &String::from("z"));
    assert_eq!(r, Outcome::Applied);
    let first = d.contexts[0].context.as_ref().unwrap().namespace.clone();
    let second = d.contexts[1].context.as_ref().unwrap().namespace.clone();
    assert_eq!(first, Some(String::from("z")));
    assert_eq!(second, Some(String::from("y")));
}

#[test]
fn switch_context_works_while_current_context_dangles() {
    let mut d = doc(Some("gone"), vec![entry("b", Some("y"))]);
    let r = switch_context(&mut d, &String::from("b"));
    assert_eq!(r, Outcome::Applied);
    assert_eq!(d.current_context, Some(String::from("b")));
}

#[test]
fn set_namespace_fills_in_an_absent_namespace() {
    let mut d = doc(Some("a"), vec![entry("a", None)]);
    let r = set_namespace(&mut d, &String::from("n"));
    assert_eq!(r, Outcome::Applied);
    assert_eq!(namespace_of(&d, "a"), Some(String::from("n")));
}
