use rshell::builtin::{cd_target, CdError};
use rshell::environment::Environment;

fn strings(items: &[&str]) -> Vec<String> {
    items.iter().map(|s| s.to_string()).collect()
}

fn home(path: &str) -> Environment {
    let mut env = Environment::new();
    env.set("HOME".to_string(), path.to_string());
    env
}

#[test]
fn cd_with_one_argument_goes_there() {
    assert_eq!(cd_target(&strings(&["cd", "/tmp"]), &Environment::new()), Ok("/tmp".to_string()));
    assert_eq!(cd_target(&strings(&["cd", "/tmp"]), &home("/home/x")), Ok("/tmp".to_string()));
}

#[test]
fn cd_alone_goes_home() {
    assert_eq!(cd_target(&strings(&["cd"]), &home("/home/x")), Ok("/home/x".to_string()));
}

#[test]
fn cd_alone_without_home_is_an_error() {
    assert_eq!(cd_target(&strings(&["cd"]), &Environment::new()), Err(CdError::HomeNotSet));
}

#[test]
fn cd_with_two_arguments_is_an_error() {
    assert_eq!(cd_target(&strings(&["cd", "a", "b"]), &home("/home/x")), Err(CdError::TooManyArguments));
    assert_eq!(
        cd_target(&strings(&["cd", "a", "b", "c"]), &Environment::new()),
        Err(CdError::TooManyArguments)
    );
}

#[test]
fn cd_with_no_argument_vector_is_an_error() {
    assert_eq!(cd_target(&vec![], &home("/home/x")), Err(CdError::TooManyArguments));
}

#[test]
fn cd_diagnostics() {
    assert_eq!(CdError::HomeNotSet.message(), "cd: HOME is not set");
    assert_eq!(CdError::TooManyArguments.message(), "cd: too many arguments");
}
