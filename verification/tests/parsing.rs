use deployer::args::{parse_args, ArgError};

fn argv(tokens: &[&str]) -> Vec<String> {
    tokens.iter().map(|t| t.to_string()).collect()
}

fn full() -> Vec<String> {
    argv(&[
        "--access",
        "http",
        "--project",
        "myproj",
        "--context",
        "/ctx",
        "--debug-output",
        "/tmp/dbg",
        "--port",
        "2222",
        "--host",
        "example.org",
        "--username",
        "deploy",
        "--password",
        "pw",
        "--command",
        "echo hi",
    ])
}

#[test]
fn all_flags_are_taken() {
    let a = parse_args(&full()).expect("full argument list must parse");
    assert_eq!(a.access, "http");
    assert_eq!(a.project, "myproj");
    assert_eq!(a.context, "/ctx");
    assert_eq!(a.debug_output, Some("/tmp/dbg".to_string()));
    assert_eq!(a.port, 2222);
    assert_eq!(a.host, "example.org");
    assert_eq!(a.username, "deploy");
    assert_eq!(a.password, "pw");
    assert_eq!(a.command, "echo hi");
}

#[test]
fn defaults_are_applied() {
    let a = parse_args(&argv(&[
        "--context", "/ctx", "--host", "h", "--username", "u", "--password", "p", "--command",
        "c",
    ]))
    .expect("defaults must fill the rest");
    assert_eq!(a.access, "unix");
    assert_eq!(a.project, "project");
    assert_eq!(a.port, 22);
    assert_eq!(a.debug_output, None);
}

#[test]
fn missing_required_flag_is_reported() {
    let r = parse_args(&argv(&[
        "--context", "/ctx", "--host", "h", "--username", "u", "--password", "p",
    ]));
    match r {
        Err(ArgError::MissingRequired(f)) => assert_eq!(f, "--command"),
        _ => panic!("a missing required flag must be reported"),
    }
}

#[test]
fn unknown_flag_is_reported() {
    let r = parse_args(&argv(&["--context", "/ctx", "--frobnicate", "x"]));
    match r {
        Err(ArgError::UnknownFlag(f)) => assert_eq!(f, "--frobnicate"),
        _ => panic!("an unknown flag must be reported"),
    }
}

#[test]
fn flag_without_value_is_reported() {
    let r = parse_args(&argv(&["--context"]));
    match r {
        Err(ArgError::MissingValue(f)) => assert_eq!(f, "--context"),
        _ => panic!("a flag without a value must be reported"),
    }
}

#[test]
fn repeated_flag_is_reported() {
    let r = parse_args(&argv(&["--host", "a", "--host", "b"]));
    match r {
        Err(ArgError::DuplicateFlag(f)) => assert_eq!(f, "--host"),
        _ => panic!("a repeated flag must be reported"),
    }
}

#[test]
fn port_bounds_are_enforced() {
    let base = |port: &str| {
        argv(&[
            "--context", "/ctx", "--host", "h", "--username", "u", "--password", "p",
            "--command", "c", "--port", port,
        ])
    };
    assert_eq!(parse_args(&base("0")).unwrap().port, 0);
    assert_eq!(parse_args(&base("65535")).unwrap().port, 65535);
    match parse_args(&base("65536")) {
        Err(ArgError::InvalidPort(v)) => assert_eq!(v, "65536"),
        _ => panic!("a port beyond the range must be rejected"),
    }
    assert!(matches!(
        parse_args(&base("2x2")),
        Err(ArgError::InvalidPort(_))
    ));
    assert!(matches!(
        parse_args(&base("")),
        Err(ArgError::InvalidPort(_))
    ));
    assert!(matches!(
        parse_args(&base("99999999999999999999")),
        Err(ArgError::InvalidPort(_))
    ));
}

#[test]
fn equals_form_is_taken() {
    let a = parse_args(&argv(&[
        "--context=/ctx",
        "--host=h",
        "--username=u",
        "--password=p",
        "--command=echo hi",
        "--port=2222",
    ]))
    .expect("the equals form must parse");
    assert_eq!(a.context, "/ctx");
    assert_eq!(a.port, 2222);
    assert_eq!(a.command, "echo hi");
}

#[test]
fn repeated_flag_across_forms_is_reported() {
    let r = parse_args(&argv(&["--host", "a", "--host=b"]));
    match r {
        Err(ArgError::DuplicateFlag(f)) => assert_eq!(f, "--host"),
        _ => panic!("a repeated flag must be reported across both forms"),
    }
}

#[test]
fn empty_equals_value_is_kept() {
    let r = parse_args(&argv(&[
        "--context=/ctx", "--host=h", "--username=u", "--password=p", "--command=c",
        "--port=",
    ]));
    match r {
        Err(ArgError::InvalidPort(v)) => assert_eq!(v, ""),
        _ => panic!("an empty port value must be rejected"),
    }
}

#[test]
fn empty_argv_misses_context_first() {
    let r = parse_args(&Vec::new());
    match r {
        Err(ArgError::MissingRequired(f)) => assert_eq!(f, "--context"),
        _ => panic!("an empty argument list must miss the context flag"),
    }
}
