use credentials_to_env::args::{parse, ParseOutcome};

fn toks(words: &[&str]) -> Vec<String> {
    words.iter().map(|w| w.to_string()).collect()
}

#[test]
fn test_args_parse() {
    let args = match parse(&toks(&["foo"])) {
        ParseOutcome::Run(a) => a,
        _ => panic!("expected a run command"),
    };
    assert_eq!(true, args.allow_override);
    assert_eq!(None, args.secretfile);
    assert_eq!("foo", args.program);
    assert_eq!(vec![] as Vec<String>, args.args);

    let args = match parse(&toks(&["--no-env-override", "-f", "/app/Secretfile", "--", "foo", "--bar"])) {
        ParseOutcome::Run(a) => a,
        _ => panic!("expected a run command"),
    };
    assert_eq!(false, args.allow_override);
    assert_eq!(Some("/app/Secretfile".to_string()), args.secretfile);
    assert_eq!("foo", args.program);
    assert_eq!(vec!["--bar".to_string()], args.args);
}

#[test]
fn plain_first_token_is_the_program() {
    let args = match parse(&toks(&["prog", "-f", "--no-env-override"])) {
        ParseOutcome::Run(a) => a,
        _ => panic!("expected a run command"),
    };
    assert_eq!(true, args.allow_override);
    assert_eq!(None, args.secretfile);
    assert_eq!("prog", args.program);
    assert_eq!(vec!["-f".to_string(), "--no-env-override".to_string()], args.args);
}

#[test]
fn help_and_version_end_scanning() {
    assert!(matches!(parse(&toks(&["--help"])), ParseOutcome::Help));
    assert!(matches!(parse(&toks(&["--version"])), ParseOutcome::Version));
    assert!(matches!(parse(&toks(&["--no-env-override", "--help", "foo"])), ParseOutcome::Help));
}

#[test]
fn dash_f_takes_the_following_token() {
    let args = match parse(&toks(&["-f", "Secrets", "prog", "a", "b"])) {
        ParseOutcome::Run(a) => a,
        _ => panic!("expected a run command"),
    };
    assert_eq!(Some("Secrets".to_string()), args.secretfile);
    assert_eq!("prog", args.program);
    assert_eq!(vec!["a".to_string(), "b".to_string()], args.args);
}

#[test]
fn usage_errors() {
    // no tokens at all
    assert!(matches!(parse(&toks(&[])), ParseOutcome::UsageError));
    // unrecognized option
    assert!(matches!(parse(&toks(&["-x", "prog"])), ParseOutcome::UsageError));
    // -f without a following token
    assert!(matches!(parse(&toks(&["-f"])), ParseOutcome::UsageError));
    // nothing after --
    assert!(matches!(parse(&toks(&["--"])), ParseOutcome::UsageError));
    // program token starting with a dash, even after --
    assert!(matches!(parse(&toks(&["--", "-prog"])), ParseOutcome::UsageError));
    // a bare dash
    assert!(matches!(parse(&toks(&["-"])), ParseOutcome::UsageError));
    // an empty program token
    assert!(matches!(parse(&toks(&[""])), ParseOutcome::UsageError));
}

#[test]
fn double_dash_forwards_everything_verbatim() {
    let args = match parse(&toks(&["--", "prog", "--no-env-override", "-f", "x"])) {
        ParseOutcome::Run(a) => a,
        _ => panic!("expected a run command"),
    };
    assert_eq!(true, args.allow_override);
    assert_eq!(None, args.secretfile);
    assert_eq!("prog", args.program);
    assert_eq!(
        vec!["--no-env-override".to_string(), "-f".to_string(), "x".to_string()],
        args.args
    );
}
