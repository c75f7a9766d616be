use std::cell::Cell;

use cli_arg::{
    ArgPassword, CmdArg, CmdArgFlag, CmdArgOption, Config, Matches, QuitError,
    EMPTY_PASSWORD_MESSAGE,
};

fn config(force: bool) -> Config {
    Config { force, verbose: false }
}

fn given(values: &[&str]) -> Matches {
    let mut m = Matches::new();
    m.push("verbose".to_string(), Vec::new());
    m.push(
        "password".to_string(),
        values.iter().map(|v| v.to_string()).collect(),
    );
    m
}

fn no_prompt(_: Config) -> String {
    panic!("the prompt must not be asked")
}

fn assert_empty_rejected(r: Result<Option<String>, QuitError>) {
    match r {
        Err(e) => {
            assert_eq!(e.message, EMPTY_PASSWORD_MESSAGE);
            assert_eq!(e.message, "An empty password is not supported by the web interface");
            assert!(e.hints.force);
            assert!(!e.hints.verbose);
        }
        Ok(v) => panic!("expected a rejection, got {:?}", v),
    }
}

#[test]
fn name_is_password() {
    assert_eq!(ArgPassword::name(), "password");
}

#[test]
fn build_describes_the_option() {
    let spec = ArgPassword::build();
    assert_eq!(spec.name, "password");
    assert_eq!(spec.long, "password");
    assert_eq!(spec.short, "p");
    assert_eq!(spec.aliases, vec!["pass"]);
    assert_eq!(spec.value_name, "PASSWORD");
    assert_eq!(spec.min_values, 0);
    assert_eq!(spec.max_values, 1);
    assert_eq!(spec.help, "Unlock a password protected file");
}

#[test]
fn absent_option_is_not_applicable() {
    let mut m = Matches::new();
    m.push("force".to_string(), Vec::new());
    assert!(!ArgPassword::is_present(&m));
    assert_eq!(ArgPassword::value_raw(&m), None);
    let r = ArgPassword::value(&m, config(false), no_prompt);
    assert!(matches!(r, Ok(None)));
}

#[test]
fn empty_matches_are_not_applicable() {
    let m = Matches::new();
    let r = ArgPassword::value(&m, config(true), no_prompt);
    assert!(matches!(r, Ok(None)));
}

#[test]
fn literal_wins_over_prompt() {
    let m = given(&["abc"]);
    assert!(ArgPassword::is_present(&m));
    assert_eq!(ArgPassword::value_raw(&m), Some("abc".to_string()));
    let r = ArgPassword::value(&m, config(false), no_prompt);
    assert_eq!(r.ok(), Some(Some("abc".to_string())));
}

#[test]
fn bare_flag_prompts_once() {
    let m = given(&[]);
    assert!(ArgPassword::is_present(&m));
    assert_eq!(ArgPassword::value_raw(&m), None);
    let calls = Cell::new(0u32);
    let r = ArgPassword::value(&m, config(false), |c: Config| {
        calls.set(calls.get() + 1);
        assert!(!c.force);
        "typed secret".to_string()
    });
    assert_eq!(calls.get(), 1);
    assert_eq!(r.ok(), Some(Some("typed secret".to_string())));
}

#[test]
fn prompt_receives_the_configuration() {
    let m = given(&[]);
    let cfg = Config { force: true, verbose: true };
    let r = ArgPassword::value(&m, cfg, |c: Config| {
        assert!(c.force && c.verbose);
        "x".to_string()
    });
    assert_eq!(r.ok(), Some(Some("x".to_string())));
}

#[test]
fn empty_literal_rejected_without_force() {
    let m = given(&[""]);
    assert_empty_rejected(ArgPassword::value(&m, config(false), no_prompt));
}

#[test]
fn empty_prompt_answer_rejected_without_force() {
    let m = given(&[]);
    assert_empty_rejected(ArgPassword::value(&m, config(false), |_| String::new()));
}

#[test]
fn empty_literal_accepted_with_force() {
    let m = given(&[""]);
    let r = ArgPassword::value(&m, config(true), no_prompt);
    assert_eq!(r.ok(), Some(Some(String::new())));
}

#[test]
fn empty_prompt_answer_accepted_with_force() {
    let m = given(&[]);
    let r = ArgPassword::value(&m, config(true), |_| String::new());
    assert_eq!(r.ok(), Some(Some(String::new())));
}

#[test]
fn value_is_passed_through_verbatim() {
    let m = given(&["  has spaces  "]);
    let r = ArgPassword::value(&m, config(true), no_prompt);
    assert_eq!(r.ok(), Some(Some("  has spaces  ".to_string())));
    let r = ArgPassword::value(&m, config(false), no_prompt);
    assert_eq!(r.ok(), Some(Some("  has spaces  ".to_string())));
    let m = given(&[]);
    let r = ArgPassword::value(&m, config(false), |_| "  Mixed Case \t".to_string());
    assert_eq!(r.ok(), Some(Some("  Mixed Case \t".to_string())));
}

#[test]
fn resolving_twice_gives_the_same_result() {
    let m = given(&["abc"]);
    let first = ArgPassword::value(&m, config(false), no_prompt);
    let second = ArgPassword::value(&m, config(false), no_prompt);
    assert_eq!(first.ok(), second.ok());
    let m = given(&[""]);
    assert_empty_rejected(ArgPassword::value(&m, config(false), no_prompt));
    assert_empty_rejected(ArgPassword::value(&m, config(false), no_prompt));
}

#[test]
fn check_applies_the_policy() {
    assert_eq!(
        ArgPassword::check("pw".to_string(), config(false)).ok(),
        Some(Some("pw".to_string()))
    );
    assert_eq!(
        ArgPassword::check(String::new(), config(true)).ok(),
        Some(Some(String::new()))
    );
    assert_empty_rejected(ArgPassword::check(String::new(), config(false)));
    assert_empty_rejected(ArgPassword::check(String::new(), Config { force: false, verbose: true }));
}

#[test]
fn first_record_of_an_option_counts() {
    let mut m = Matches::new();
    m.push("password".to_string(), vec!["one".to_string(), "two".to_string()]);
    m.push("password".to_string(), vec!["three".to_string()]);
    assert_eq!(m.value_of("password"), Some("one".to_string()));
    assert!(m.is_present("password"));
    assert!(!m.is_present("pass"));
    assert_eq!(m.value_of("missing"), None);
}
