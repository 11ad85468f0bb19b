use relay_dispatch::invocation;
use relay_dispatch::Invocation;

#[test]
fn version_flag_asks_for_the_version() {
    assert!(matches!(invocation(Some("--version")), Invocation::ShowVersion));
}

#[test]
fn help_flag_asks_for_the_synopsis() {
    assert!(matches!(invocation(Some("--help")), Invocation::ShowHelp));
}

#[test]
fn any_other_argument_names_the_configuration_file() {
    match invocation(Some("/etc/relay.conf")) {
        Invocation::Run { config_file } => assert_eq!(config_file, Some("/etc/relay.conf".to_string())),
        other => panic!("unexpected {:?}", other),
    }
    match invocation(Some("--versio")) {
        Invocation::Run { config_file } => assert_eq!(config_file, Some("--versio".to_string())),
        other => panic!("unexpected {:?}", other),
    }
    match invocation(Some("")) {
        Invocation::Run { config_file } => assert_eq!(config_file, Some(String::new())),
        other => panic!("unexpected {:?}", other),
    }
}

#[test]
fn no_argument_runs_with_the_default_file() {
    assert!(matches!(invocation(None), Invocation::Run { config_file: None }));
}
