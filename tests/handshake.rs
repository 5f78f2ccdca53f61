use apas::messages::{CliToServer, OutputType, ServerToCli, ServerToWeb};
use apas::server::{registration_outcome, RegistrationOutcome};
use apas::update::check_for_update_available;
use apas::version::{is_version_supported, parse_version, MIN_CLIENT_VERSION};

#[test]
fn version_numbers_compare_numerically() {
    assert_eq!(parse_version("26.01.0"), Some(26_010_000));
    assert_eq!(parse_version("26.02.5"), Some(26_020_005));
    assert_eq!(parse_version("26.1.42"), Some(26_010_042));
    assert_eq!(parse_version("+1.2.3"), Some(1_020_003));
    assert!(parse_version("26.10.0") > parse_version("26.9.0"));
}

#[test]
fn malformed_versions_do_not_parse() {
    assert_eq!(parse_version("26.01"), None);
    assert_eq!(parse_version("26.01.0.1"), None);
    assert_eq!(parse_version("a.b.c"), None);
    assert_eq!(parse_version("26..1"), None);
    assert_eq!(parse_version(""), None);
    assert_eq!(parse_version("99999999999999999999.1.1"), None);
    assert_eq!(parse_version("18446744073710.0.0"), None);
}

#[test]
fn version_gate() {
    assert_eq!(MIN_CLIENT_VERSION, "26.01.0");
    assert!(is_version_supported("26.01.0"));
    assert!(is_version_supported("26.02.5"));
    assert!(!is_version_supported("25.12.99"));
    assert!(is_version_supported("unknown"));
}

#[test]
fn old_producer_gets_one_refusal() {
    let msg = CliToServer::Register { token: "t".to_string(), version: Some("25.12.1".to_string()) };
    match registration_outcome(&msg, 5) {
        RegistrationOutcome::Rejected(ServerToCli::VersionUnsupported { client_version, min_version }) => {
            assert_eq!(client_version, "25.12.1");
            assert_eq!(min_version, "26.01.0");
        }
        other => panic!("unexpected {:?}", other),
    }
}

#[test]
fn registration_without_version_is_accepted() {
    let msg = CliToServer::Register { token: "t".to_string(), version: None };
    assert_eq!(
        registration_outcome(&msg, 5),
        RegistrationOutcome::Accepted(ServerToCli::Registered { cli_id: 5 })
    );
    assert_eq!(registration_outcome(&CliToServer::Heartbeat, 5), RegistrationOutcome::Ignored);
}

#[test]
fn update_is_offered_only_for_newer_versions() {
    assert_eq!(check_for_update_available("26.01.3", "26.01.4".to_string()), Some("26.01.4".to_string()));
    assert_eq!(check_for_update_available("26.01.3", "26.01.3".to_string()), None);
    assert_eq!(check_for_update_available("26.01.3", "25.12.9".to_string()), None);
    assert_eq!(check_for_update_available("dev", "26.01.4".to_string()), None);
}

#[test]
fn test_cli_to_server_output_helper() {
    let session_id = 42u128;
    let msg = CliToServer::output(session_id, "Hello, world!".to_string());
    match msg {
        CliToServer::Output { session_id: sid, data, output_type, .. } => {
            assert_eq!(sid, session_id);
            assert_eq!(data, "Hello, world!");
            assert_eq!(output_type, OutputType::Text);
        }
        _ => panic!("Expected Output variant"),
    }
}

#[test]
fn test_server_to_web_helpers() {
    let msg = ServerToWeb::output("Test output".to_string());
    match msg {
        ServerToWeb::Output { content, output_type, .. } => {
            assert_eq!(content, "Test output");
            assert_eq!(output_type, OutputType::Text);
        }
        _ => panic!("Expected Output variant"),
    }
    let msg = ServerToWeb::error("Something went wrong".to_string());
    match msg {
        ServerToWeb::Error { message } => {
            assert_eq!(message, "Something went wrong");
        }
        _ => panic!("Expected Error variant"),
    }
}

#[test]
fn test_output_type_default() {
    let output_type = OutputType::default();
    assert_eq!(output_type, OutputType::Text);
}
