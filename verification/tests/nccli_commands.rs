use libnetctl::nccli::commands::{
    authorize, get_required_privilege, Commands, ConnectionCommands, GeneralCommands,
    NetworkingCommands, RadioCommands,
};
use libnetctl::nccli::privilege::PrivilegedOp;

#[test]
fn read_only_commands_need_no_privilege() {
    let status = Commands::General(GeneralCommands::Status);
    assert_eq!(get_required_privilege(&status), None);
    assert!(authorize(&status, false, false).is_ok());
    let show = Commands::Connection(ConnectionCommands::Show { id: None, active: true });
    assert_eq!(get_required_privilege(&show), None);
    let query = Commands::Radio(RadioCommands::Wifi { state: None });
    assert_eq!(get_required_privilege(&query), None);
    assert_eq!(get_required_privilege(&Commands::General(GeneralCommands::Hostname { hostname: None })), None);
}

#[test]
fn changing_commands_need_root() {
    let off = Commands::Networking(NetworkingCommands::Off);
    assert_eq!(get_required_privilege(&off), Some(PrivilegedOp::NetworkingOff));
    assert!(authorize(&off, false, false).is_err());
    assert!(authorize(&off, false, true).is_ok());
    let radio = Commands::Radio(RadioCommands::Wifi { state: Some("off".to_string()) });
    assert_eq!(get_required_privilege(&radio), Some(PrivilegedOp::RadioWifiOff));
    let up = Commands::Connection(ConnectionCommands::Up {
        id: "home".to_string(),
        ifname: None,
        ap: None,
        passwd_file: None,
    });
    assert_eq!(get_required_privilege(&up), Some(PrivilegedOp::ConnectionUp));
    let host = Commands::General(GeneralCommands::Hostname { hostname: Some("r1".to_string()) });
    assert_eq!(get_required_privilege(&host), Some(PrivilegedOp::SetHostname));
    assert_eq!(
        get_required_privilege(&Commands::Daemon { nm_compat: true, cr_dbus: false }),
        Some(PrivilegedOp::ApStart)
    );
}
