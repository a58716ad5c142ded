use libnetctl::dhcp_client::{
    CommandOutcome, DaemonOutcome, DhcpClientController, DhcpCommand, CRDHCPC_BIN,
    CRDHCPC_CONFIG,
};
use libnetctl::error::NetctlError;

#[test]
fn test_dhcp_client_controller_creation() {
    let controller = DhcpClientController::new();
    assert_eq!(controller.crdhcpc_bin(), CRDHCPC_BIN);
    assert_eq!(controller.config_path(), CRDHCPC_CONFIG);
}

#[test]
fn test_custom_paths() {
    let controller = DhcpClientController::with_paths(
        "/custom/bin/crdhcpc".to_string(),
        "/custom/config.toml".to_string(),
    );
    assert_eq!(controller.crdhcpc_bin(), "/custom/bin/crdhcpc");
    assert_eq!(controller.config_path(), "/custom/config.toml");
}

#[test]
fn command_args_name_the_verb_and_interface() {
    let c = DhcpClientController::new();
    let args = c.command_args(DhcpCommand::Release, "eth0");
    assert_eq!(args.last().map(|s| s.as_str()), Some("eth0"));
    assert!(args.iter().any(|a| a == "release"));
}

#[test]
fn missing_binary_refuses_start() {
    let c = DhcpClientController::new();
    let r = c.prepare(DhcpCommand::Start, "eth0", false);
    assert!(r.is_err());
}

#[test]
fn failed_run_is_command_failed() {
    let c = DhcpClientController::new();
    let outcome = CommandOutcome::Finished {
        success: false,
        code: Some(3),
        stdout: String::new(),
        stderr: "no lease".to_string(),
    };
    match c.finish(DhcpCommand::Renew, "eth0", &outcome) {
        Err(NetctlError::CommandFailed { cmd, code, stderr }) => {
            assert_eq!(cmd, "crdhcpc renew eth0");
            assert_eq!(code, Some(3));
            assert_eq!(stderr, "no lease");
        },
        other => panic!("unexpected {:?}", other),
    }
}

#[test]
fn running_daemon_is_ok() {
    let c = DhcpClientController::new();
    assert!(c.daemon_answer(true, &DaemonOutcome::Running).is_ok());
    assert!(c.daemon_answer(false, &DaemonOutcome::Running).is_err());
}

#[test]
fn verbs() {
    assert_eq!(DhcpCommand::Start.verb(), "start");
    assert_eq!(DhcpCommand::Stop.verb(), "stop");
    assert_eq!(DhcpCommand::Status.verb(), "status");
}
