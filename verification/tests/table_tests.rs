use ray::RayError;
use ray::Winget;
use ray::command_handler::requires_trailing_arg;

#[test]
fn test_winget_command_mapping() {
    let winget = Winget;
    let mapping = winget.get_command_mapping();

    assert_eq!(mapping.get("-S"), Some(vec!["install".to_string()]));
    assert_eq!(mapping.get("-R"), Some(vec!["uninstall".to_string()]));
    assert_eq!(mapping.get("-Ss"), Some(vec!["search".to_string()]));
    assert_eq!(mapping.get("-Q"), Some(vec!["list".to_string()]));
    assert_eq!(mapping.get("-Syu"), Some(vec!["upgrade".to_string(), "--all".to_string()]));
}

#[test]
fn test_winget_executable_name() {
    let winget = Winget;
    assert_eq!(winget.get_executable_name(), "winget");
}

#[test]
fn test_winget_help_message() {
    let winget = Winget;
    let help = winget.get_help_message();
    assert!(help.contains("Usage: ray"));
    assert!(help.contains("-S"));
    assert!(help.contains("-R"));
}

#[test]
fn test_error_display() {
    let err = RayError::CommandNotFound("test".to_string());
    assert_eq!(err.message(), "Command not found: test");

    let err = RayError::InvalidArguments("missing package name".to_string());
    assert_eq!(err.message(), "Invalid arguments: missing package name");
}

#[test]
fn test_command_validation() {
    assert!(requires_trailing_arg("install"));
    assert!(requires_trailing_arg("search"));
    assert!(!requires_trailing_arg("list"));
}

#[test]
fn test_command_validation_rest() {
    assert!(requires_trailing_arg("uninstall"));
    assert!(requires_trailing_arg("show"));
    assert!(!requires_trailing_arg("upgrade"));
    assert!(!requires_trailing_arg("source"));
    assert!(!requires_trailing_arg("update"));
    assert!(!requires_trailing_arg("&&"));
}

#[test]
fn test_mapping_full_table() {
    let winget = Winget;
    let mapping = winget.get_command_mapping();

    assert_eq!(
        mapping.get("-Syyu"),
        Some(vec![
            "source".to_string(),
            "update".to_string(),
            "&&".to_string(),
            "upgrade".to_string(),
            "--all".to_string(),
        ])
    );
    assert_eq!(mapping.get("-Sy"), Some(vec!["source".to_string(), "update".to_string()]));
    assert_eq!(mapping.get("-Rns"), Some(vec!["uninstall".to_string()]));
    assert_eq!(mapping.get("-Qi"), Some(vec!["show".to_string()]));
    assert_eq!(mapping.get("-Si"), Some(vec!["show".to_string()]));
    assert_eq!(mapping.get("-Qs"), Some(vec!["list".to_string()]));
}

#[test]
fn test_mapping_unknown_flags() {
    let winget = Winget;
    let mapping = winget.get_command_mapping();

    assert_eq!(mapping.get("-X"), None);
    assert_eq!(mapping.get("install"), None);
    assert_eq!(mapping.get(""), None);
    assert_eq!(mapping.get("-s"), None);
}

#[test]
fn test_error_messages_rest() {
    let err = RayError::ExecutionFailed("Command failed with exit code: 7".to_string());
    assert_eq!(err.message(), "Execution failed: Command failed with exit code: 7");

    let err = RayError::IoError("program not found".to_string());
    assert_eq!(err.message(), "IO error: program not found");

    let err = RayError::UsageError;
    assert_eq!(err.message(), "Usage error: no arguments given");
}
