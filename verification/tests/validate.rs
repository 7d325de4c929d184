use apex_check::messages::{error_lines, help_lines};
use apex_check::text::{str_contains_char, str_eq, str_starts_with};
use apex_check::validate::{early_exit_code, validate_args, ArgError, ArgOutcome};

#[test]
fn accepts_single_plain_domain() {
    let args = vec![String::from("example.org")];
    let r = validate_args(&args);
    assert_eq!(r, ArgOutcome::ValidDomain(String::from("example.org")));
    assert_eq!(early_exit_code(&r), None);
}

#[test]
fn accepts_domain_with_subdomain_label() {
    let args = vec![String::from("sub.example.org")];
    let r = validate_args(&args);
    assert_eq!(r, ArgOutcome::ValidDomain(String::from("sub.example.org")));
}

#[test]
fn accepts_empty_argument_as_domain() {
    // no normalization or emptiness check is performed: pass-through
    let args = vec![String::new()];
    let r = validate_args(&args);
    assert_eq!(r, ArgOutcome::ValidDomain(String::new()));
}

#[test]
fn rejects_no_arguments_as_usage_error() {
    let args: Vec<String> = vec![];
    let r = validate_args(&args);
    assert_eq!(r, ArgOutcome::Rejected(ArgError::Usage));
    assert_eq!(early_exit_code(&r), Some(1));
}

#[test]
fn rejects_two_arguments_as_usage_error() {
    let args = vec![String::from("example.org"), String::from("example.net")];
    let r = validate_args(&args);
    assert_eq!(r, ArgOutcome::Rejected(ArgError::Usage));
    assert_eq!(early_exit_code(&r), Some(1));
}

#[test]
fn usage_error_message_lines() {
    let lines = error_lines(&ArgError::Usage);
    assert_eq!(
        lines,
        vec![
            String::from("Usage: apex-check <APEX_DOMAIN>"),
            String::from("Only a single argument is supported, see --help for more information."),
        ]
    );
}

#[test]
fn short_help_flag_requests_help() {
    let args = vec![String::from("-h")];
    let r = validate_args(&args);
    assert_eq!(r, ArgOutcome::HelpRequested);
    assert_eq!(early_exit_code(&r), Some(0));
}

#[test]
fn long_help_flag_requests_help() {
    let args = vec![String::from("--help")];
    let r = validate_args(&args);
    assert_eq!(r, ArgOutcome::HelpRequested);
    assert_eq!(early_exit_code(&r), Some(0));
}

#[test]
fn help_flag_wins_over_validation_failures() {
    // two arguments: the count check comes first, so help is not honored
    let args = vec![String::from("-h"), String::from("x")];
    assert_eq!(validate_args(&args), ArgOutcome::Rejected(ArgError::Usage));
}

#[test]
fn help_text_names_the_program_and_gives_an_example() {
    let lines = help_lines();
    assert_eq!(lines[0], "Apex Check v0.1.0");
    assert!(lines.iter().any(|l| l == "\tapex-check example.org"));
    assert!(lines.iter().any(|l| l == "\tapex-check <APEX_DOMAIN>"));
}

#[test]
fn rejects_http_scheme_prefix() {
    let args = vec![String::from("http://example.org")];
    let r = validate_args(&args);
    assert_eq!(r, ArgOutcome::Rejected(ArgError::Scheme));
    assert_eq!(early_exit_code(&r), Some(1));
}

#[test]
fn rejects_https_scheme_prefix() {
    let args = vec![String::from("https://example.org")];
    let r = validate_args(&args);
    assert_eq!(r, ArgOutcome::Rejected(ArgError::Scheme));
}

#[test]
fn scheme_error_message_line() {
    let lines = error_lines(&ArgError::Scheme);
    assert_eq!(
        lines,
        vec![String::from("The input url provided should not have a scheme (e.g. http://)")]
    );
}

#[test]
fn rejects_path_in_argument() {
    let args = vec![String::from("example.org/path")];
    let r = validate_args(&args);
    assert_eq!(r, ArgOutcome::Rejected(ArgError::Path));
    assert_eq!(early_exit_code(&r), Some(1));
}

#[test]
fn rejects_lone_slash() {
    let args = vec![String::from("/")];
    assert_eq!(validate_args(&args), ArgOutcome::Rejected(ArgError::Path));
}

#[test]
fn path_error_message_line() {
    let lines = error_lines(&ArgError::Path);
    assert_eq!(
        lines,
        vec![String::from("The input url should just be the domain name, no paths")]
    );
}

#[test]
fn str_eq_compares_contents() {
    assert!(str_eq("abc", "abc"));
    assert!(!str_eq("abc", "abd"));
    assert!(!str_eq("abc", "ab"));
    assert!(str_eq("", ""));
}

#[test]
fn str_starts_with_checks_prefix() {
    assert!(str_starts_with("http://x", "http://"));
    assert!(!str_starts_with("htt", "http://"));
    assert!(!str_starts_with("xhttp://", "http://"));
    assert!(str_starts_with("anything", ""));
}

#[test]
fn str_contains_char_finds_character() {
    assert!(str_contains_char("a/b", '/'));
    assert!(!str_contains_char("ab", '/'));
    assert!(!str_contains_char("", '/'));
}
