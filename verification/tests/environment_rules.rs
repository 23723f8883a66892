use rshell::environment::Environment;

#[test]
fn nothing_is_set_at_first() {
    let env = Environment::new();
    assert_eq!(env.get("HOME"), None);
    assert_eq!(env.value_or_empty("HOME"), "");
}

#[test]
fn a_set_variable_is_found() {
    let mut env = Environment::new();
    env.set("HOME".to_string(), "/home/x".to_string());
    assert_eq!(env.get("HOME"), Some("/home/x".to_string()));
    assert_eq!(env.value_or_empty("HOME"), "/home/x");
    assert_eq!(env.get("HOM"), None);
    assert_eq!(env.get("home"), None);
}

#[test]
fn the_later_value_wins() {
    let mut env = Environment::new();
    env.set("A".to_string(), "1".to_string());
    env.set("B".to_string(), "2".to_string());
    env.set("A".to_string(), "3".to_string());
    assert_eq!(env.get("A"), Some("3".to_string()));
    assert_eq!(env.get("B"), Some("2".to_string()));
}

#[test]
fn a_variable_may_be_set_to_nothing() {
    let mut env = Environment::new();
    env.set("E".to_string(), String::new());
    assert_eq!(env.get("E"), Some(String::new()));
    assert_eq!(env.value_or_empty("E"), "");
}
