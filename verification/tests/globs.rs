use hurl_cli::args::RawArguments;
use hurl_cli::error::ConfigError;
use hurl_cli::globs::{collect_matches, match_glob_files, probe_globs, GlobOutcome};

fn some(s: &str) -> Option<String> {
    Some(s.to_string())
}

#[test]
fn no_pattern_gives_no_file() {
    assert_eq!(match_glob_files(&RawArguments::new()), Ok(vec![]));
}

#[test]
fn matches_follow_the_order_of_the_patterns() {
    let mut args = RawArguments::new();
    args.glob = vec!["/dev/nul*".to_string(), "/dev/zer*".to_string()];
    assert_eq!(
        match_glob_files(&args),
        Ok(vec!["/dev/null".to_string(), "/dev/zero".to_string()])
    );
    args.glob = vec!["/dev/zer*".to_string(), "/dev/nul*".to_string()];
    assert_eq!(
        match_glob_files(&args),
        Ok(vec!["/dev/zero".to_string(), "/dev/null".to_string()])
    );
}

#[test]
fn pattern_without_match_adds_nothing() {
    let mut args = RawArguments::new();
    args.glob = vec!["/dev/no-such-entry-*".to_string(), "/dev/nul?".to_string()];
    assert_eq!(match_glob_files(&args), Ok(vec!["/dev/null".to_string()]));
}

#[test]
fn invalid_pattern_fails_the_expansion() {
    let mut args = RawArguments::new();
    args.glob = vec!["/dev/nul*".to_string(), "abc[def".to_string(), "/dev/zer*".to_string()];
    assert_eq!(match_glob_files(&args), Err(ConfigError::GlobFailure));
    let outcomes = probe_globs(&args.glob);
    assert_eq!(outcomes.len(), 2);
    assert_eq!(outcomes[0], GlobOutcome::Entries(vec![some("/dev/null")]));
    assert_eq!(outcomes[1], GlobOutcome::InvalidPattern);
}

#[test]
fn outcomes_are_joined_in_order() {
    let outcomes = vec![
        GlobOutcome::Entries(vec![some("a2"), some("a1")]),
        GlobOutcome::Entries(vec![]),
        GlobOutcome::Entries(vec![some("b1")]),
    ];
    assert_eq!(
        collect_matches(&outcomes),
        Ok(vec!["a2".to_string(), "a1".to_string(), "b1".to_string()])
    );
    assert_eq!(collect_matches(&vec![]), Ok(vec![]));
}

#[test]
fn unreadable_entry_fails_the_expansion() {
    let outcomes = vec![
        GlobOutcome::Entries(vec![some("a1")]),
        GlobOutcome::Entries(vec![some("b1"), None, some("b2")]),
    ];
    assert_eq!(collect_matches(&outcomes), Err(ConfigError::GlobFailure));
    assert_eq!(collect_matches(&vec![GlobOutcome::InvalidPattern]), Err(ConfigError::GlobFailure));
}
