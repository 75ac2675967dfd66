use ray::RayError;
use ray::command_handler::resolve;
use ray::command_handler::run_commands;
use ray::command_handler::wants_help;
use ray::execution::ExecOutcome;
use ray::execution::execution_step;

fn args_of(parts: &[&str]) -> Vec<String> {
    parts.iter().map(|s| s.to_string()).collect()
}

fn subs_of(parts: &[&[&str]]) -> Vec<Vec<String>> {
    parts.iter().map(|sub| args_of(sub)).collect()
}

#[test]
fn test_resolve_install_single() {
    let plan = resolve(&args_of(&["-S", "pkgname"])).unwrap();
    assert_eq!(plan.executable, "winget");
    assert_eq!(plan.subs, subs_of(&[&["install", "pkgname"]]));
}

#[test]
fn test_resolve_simple_flags() {
    let plan = resolve(&args_of(&["-Syu"])).unwrap();
    assert_eq!(plan.subs, subs_of(&[&["upgrade", "--all"]]));

    let plan = resolve(&args_of(&["-Sy"])).unwrap();
    assert_eq!(plan.subs, subs_of(&[&["source", "update"]]));

    let plan = resolve(&args_of(&["-Q"])).unwrap();
    assert_eq!(plan.subs, subs_of(&[&["list"]]));

    let plan = resolve(&args_of(&["-Qs"])).unwrap();
    assert_eq!(plan.subs, subs_of(&[&["list"]]));
}

#[test]
fn test_resolve_flags_with_trailing() {
    let plan = resolve(&args_of(&["-Ss", "vim"])).unwrap();
    assert_eq!(plan.subs, subs_of(&[&["search", "vim"]]));

    let plan = resolve(&args_of(&["-R", "vim"])).unwrap();
    assert_eq!(plan.subs, subs_of(&[&["uninstall", "vim"]]));

    let plan = resolve(&args_of(&["-Rns", "vim"])).unwrap();
    assert_eq!(plan.subs, subs_of(&[&["uninstall", "vim"]]));

    let plan = resolve(&args_of(&["-Qi", "vim"])).unwrap();
    assert_eq!(plan.subs, subs_of(&[&["show", "vim"]]));

    let plan = resolve(&args_of(&["-Si", "vim"])).unwrap();
    assert_eq!(plan.subs, subs_of(&[&["show", "vim"]]));
}

#[test]
fn test_resolve_trailing_args_all_forwarded() {
    let plan = resolve(&args_of(&["-S", "one", "two", "three"])).unwrap();
    assert_eq!(plan.subs, subs_of(&[&["install", "one", "two", "three"]]));
}

#[test]
fn test_resolve_chained_flag() {
    let plan = resolve(&args_of(&["-Syyu"])).unwrap();
    assert_eq!(plan.subs, subs_of(&[&["source", "update"], &["upgrade", "--all"]]));
}

#[test]
fn test_resolve_passthrough() {
    let plan = resolve(&args_of(&["--info"])).unwrap();
    assert_eq!(plan.executable, "winget");
    assert_eq!(plan.subs, subs_of(&[&["--info"]]));

    let plan = resolve(&args_of(&["settings", "export", "--verbose"])).unwrap();
    assert_eq!(plan.subs, subs_of(&[&["settings", "export", "--verbose"]]));
}

#[test]
fn test_resolve_missing_trailing_arg() {
    let err = resolve(&args_of(&["-S"])).unwrap_err();
    match err {
        RayError::InvalidArguments(msg) => {
            assert_eq!(msg, "The command 'install' requires a package name or search term.");
        }
        other => panic!("expected InvalidArguments, got {:?}", other),
    }

    assert!(matches!(resolve(&args_of(&["-Ss"])), Err(RayError::InvalidArguments(_))));
    assert!(matches!(resolve(&args_of(&["-R"])), Err(RayError::InvalidArguments(_))));
    assert!(matches!(resolve(&args_of(&["-Rns"])), Err(RayError::InvalidArguments(_))));
    assert!(matches!(resolve(&args_of(&["-Qi"])), Err(RayError::InvalidArguments(_))));
    assert!(matches!(resolve(&args_of(&["-Si"])), Err(RayError::InvalidArguments(_))));
}

#[test]
fn test_resolve_empty_input() {
    let err = resolve(&Vec::new()).unwrap_err();
    assert!(matches!(err, RayError::UsageError));
}

#[test]
fn test_run_commands_appends_trailing() {
    let plan = run_commands(
        "winget",
        &args_of(&["install"]),
        &args_of(&["-S", "pkgname"]),
    )
    .unwrap();
    assert_eq!(plan.executable, "winget");
    assert_eq!(plan.subs, subs_of(&[&["install", "pkgname"]]));
}

#[test]
fn test_run_commands_drops_empty_groups() {
    let plan = run_commands(
        "winget",
        &args_of(&["list", "&&", "&&", "upgrade", "--all", "&&"]),
        &args_of(&["-X"]),
    )
    .unwrap();
    assert_eq!(plan.subs, subs_of(&[&["list"], &["upgrade", "--all"]]));
}

#[test]
fn test_run_commands_missing_arg_names_first_needy() {
    let err = run_commands(
        "winget",
        &args_of(&["list", "&&", "show"]),
        &args_of(&["-X"]),
    )
    .unwrap_err();
    match err {
        RayError::InvalidArguments(msg) => {
            assert_eq!(msg, "The command 'show' requires a package name or search term.");
        }
        other => panic!("expected InvalidArguments, got {:?}", other),
    }
}

#[test]
fn test_exit_code_propagation() {
    assert_eq!(execution_step(1, 0, 7), ExecOutcome::Finished(7));
    assert_eq!(execution_step(3, 1, 7), ExecOutcome::Finished(7));
}

#[test]
fn test_failure_short_circuits() {
    assert_eq!(execution_step(2, 0, 1), ExecOutcome::Finished(1));
    assert_eq!(execution_step(2, 0, -1), ExecOutcome::Finished(-1));
}

#[test]
fn test_success_walks_chain() {
    assert_eq!(execution_step(2, 0, 0), ExecOutcome::Next(1));
    assert_eq!(execution_step(2, 1, 0), ExecOutcome::Finished(0));
    assert_eq!(execution_step(1, 0, 0), ExecOutcome::Finished(0));
}

#[test]
fn test_wants_help() {
    assert!(wants_help(&Vec::new()));
    assert!(wants_help(&args_of(&["-h"])));
    assert!(wants_help(&args_of(&["--help"])));
    assert!(wants_help(&args_of(&["-S", "pkg", "--help"])));
    assert!(!wants_help(&args_of(&["-S", "pkg"])));
    assert!(!wants_help(&args_of(&["-Syu"])));
}
