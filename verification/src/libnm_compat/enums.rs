//! Enumerations compatible with libnm API

use vstd::prelude::*;

verus! {

/// Overall networking state (equivalent to NMState)
#[derive(Debug, Clone, Copy, PartialEq, Eq, Structural)]
pub enum CRState {
    Unknown,
    Asleep,
    Disconnected,
    Disconnecting,
    Connecting,
    ConnectedLocal,
    ConnectedSite,
    ConnectedGlobal,
}

/// The libnm number of each value.
pub open spec fn state_code(v: CRState) -> u32 {
    match v {
        CRState::Unknown => 0,
        CRState::Asleep => 10,
        CRState::Disconnected => 20,
        CRState::Disconnecting => 30,
        CRState::Connecting => 40,
        CRState::ConnectedLocal => 50,
        CRState::ConnectedSite => 60,
        CRState::ConnectedGlobal => 70,
    }
}

impl CRState {
    /// The libnm number of the value.
    pub fn code(&self) -> (r: u32)
        ensures
            r == state_code(*self),
    {
        match self {
            CRState::Unknown => 0,
            CRState::Asleep => 10,
            CRState::Disconnected => 20,
            CRState::Disconnecting => 30,
            CRState::Connecting => 40,
            CRState::ConnectedLocal => 50,
            CRState::ConnectedSite => 60,
            CRState::ConnectedGlobal => 70,
        }
    }
}

/// Network connectivity state (equivalent to NMConnectivityState)
#[derive(Debug, Clone, Copy, PartialEq, Eq, Structural)]
pub enum CRConnectivityState {
    Unknown,
    NoConnectivity,
    Portal,
    Limited,
    Full,
}

/// The libnm number of each value.
pub open spec fn connectivity_state_code(v: CRConnectivityState) -> u32 {
    match v {
        CRConnectivityState::Unknown => 0,
        CRConnectivityState::NoConnectivity => 1,
        CRConnectivityState::Portal => 2,
        CRConnectivityState::Limited => 3,
        CRConnectivityState::Full => 4,
    }
}

impl CRConnectivityState {
    /// The libnm number of the value.
    pub fn code(&self) -> (r: u32)
        ensures
            r == connectivity_state_code(*self),
    {
        match self {
            CRConnectivityState::Unknown => 0,
            CRConnectivityState::NoConnectivity => 1,
            CRConnectivityState::Portal => 2,
            CRConnectivityState::Limited => 3,
            CRConnectivityState::Full => 4,
        }
    }
}

/// Active connection state (equivalent to NMActiveConnectionState)
#[derive(Debug, Clone, Copy, PartialEq, Eq, Structural)]
pub enum CRActiveConnectionState {
    Unknown,
    Activating,
    Activated,
    Deactivating,
    Deactivated,
}

/// The libnm number of each value.
pub open spec fn active_connection_state_code(v: CRActiveConnectionState) -> u32 {
    match v {
        CRActiveConnectionState::Unknown => 0,
        CRActiveConnectionState::Activating => 1,
        CRActiveConnectionState::Activated => 2,
        CRActiveConnectionState::Deactivating => 3,
        CRActiveConnectionState::Deactivated => 4,
    }
}

impl CRActiveConnectionState {
    /// The libnm number of the value.
    pub fn code(&self) -> (r: u32)
        ensures
            r == active_connection_state_code(*self),
    {
        match self {
            CRActiveConnectionState::Unknown => 0,
            CRActiveConnectionState::Activating => 1,
            CRActiveConnectionState::Activated => 2,
            CRActiveConnectionState::Deactivating => 3,
            CRActiveConnectionState::Deactivated => 4,
        }
    }
}

/// Why a device changed state (equivalent to NMDeviceStateReason)
#[derive(Debug, Clone, Copy, PartialEq, Eq, Structural)]
pub enum CRDeviceStateReason {
    NoReason,
    Unknown,
    NowManaged,
    NowUnmanaged,
    ConfigFailed,
    IpConfigUnavailable,
    IpConfigExpired,
    NoSecrets,
    SupplicantDisconnect,
    SupplicantConfigFailed,
    SupplicantFailed,
    SupplicantTimeout,
    PppStartFailed,
    PppDisconnect,
    PppFailed,
    DhcpStartFailed,
    DhcpError,
    DhcpFailed,
    SharedStartFailed,
    SharedFailed,
    AutoIpStartFailed,
    AutoIpError,
    AutoIpFailed,
    ModemBusy,
    ModemNoDialTone,
    ModemNoCarrier,
    ModemDialTimeout,
    ModemDialFailed,
    ModemInitFailed,
    GsmApnFailed,
    GsmRegistrationNotSearching,
    GsmRegistrationDenied,
    GsmRegistrationTimeout,
    GsmRegistrationFailed,
    GsmPinCheckFailed,
    FirmwareMissing,
    Removed,
    Sleeping,
    ConnectionRemoved,
    UserRequested,
    Carrier,
    ConnectionAssumed,
    SupplicantAvailable,
    ModemNotFound,
    BtFailed,
    GsmSimNotInserted,
    GsmSimPinRequired,
    GsmSimPukRequired,
    GsmSimWrong,
    InfinibandMode,
    DependencyFailed,
    Br2684Failed,
    ModemManagerUnavailable,
    SsidNotFound,
    SecondaryConnectionFailed,
    DcbFcoeFailed,
    TeamdControlFailed,
    ModemFailed,
    ModemAvailable,
    SimPinIncorrect,
    NewActivation,
    ParentChanged,
    ParentManagedChanged,
}

/// The libnm number of each value.
pub open spec fn device_state_reason_code(v: CRDeviceStateReason) -> u32 {
    match v {
        CRDeviceStateReason::NoReason => 0,
        CRDeviceStateReason::Unknown => 1,
        CRDeviceStateReason::NowManaged => 2,
        CRDeviceStateReason::NowUnmanaged => 3,
        CRDeviceStateReason::ConfigFailed => 4,
        CRDeviceStateReason::IpConfigUnavailable => 5,
        CRDeviceStateReason::IpConfigExpired => 6,
        CRDeviceStateReason::NoSecrets => 7,
        CRDeviceStateReason::SupplicantDisconnect => 8,
        CRDeviceStateReason::SupplicantConfigFailed => 9,
        CRDeviceStateReason::SupplicantFailed => 10,
        CRDeviceStateReason::SupplicantTimeout => 11,
        CRDeviceStateReason::PppStartFailed => 12,
        CRDeviceStateReason::PppDisconnect => 13,
        CRDeviceStateReason::PppFailed => 14,
        CRDeviceStateReason::DhcpStartFailed => 15,
        CRDeviceStateReason::DhcpError => 16,
        CRDeviceStateReason::DhcpFailed => 17,
        CRDeviceStateReason::SharedStartFailed => 18,
        CRDeviceStateReason::SharedFailed => 19,
        CRDeviceStateReason::AutoIpStartFailed => 20,
        CRDeviceStateReason::AutoIpError => 21,
        CRDeviceStateReason::AutoIpFailed => 22,
        CRDeviceStateReason::ModemBusy => 23,
        CRDeviceStateReason::ModemNoDialTone => 24,
        CRDeviceStateReason::ModemNoCarrier => 25,
        CRDeviceStateReason::ModemDialTimeout => 26,
        CRDeviceStateReason::ModemDialFailed => 27,
        CRDeviceStateReason::ModemInitFailed => 28,
        CRDeviceStateReason::GsmApnFailed => 29,
        CRDeviceStateReason::GsmRegistrationNotSearching => 30,
        CRDeviceStateReason::GsmRegistrationDenied => 31,
        CRDeviceStateReason::GsmRegistrationTimeout => 32,
        CRDeviceStateReason::GsmRegistrationFailed => 33,
        CRDeviceStateReason::GsmPinCheckFailed => 34,
        CRDeviceStateReason::FirmwareMissing => 35,
        CRDeviceStateReason::Removed => 36,
        CRDeviceStateReason::Sleeping => 37,
        CRDeviceStateReason::ConnectionRemoved => 38,
        CRDeviceStateReason::UserRequested => 39,
        CRDeviceStateReason::Carrier => 40,
        CRDeviceStateReason::ConnectionAssumed => 41,
        CRDeviceStateReason::SupplicantAvailable => 42,
        CRDeviceStateReason::ModemNotFound => 43,
        CRDeviceStateReason::BtFailed => 44,
        CRDeviceStateReason::GsmSimNotInserted => 45,
        CRDeviceStateReason::GsmSimPinRequired => 46,
        CRDeviceStateReason::GsmSimPukRequired => 47,
        CRDeviceStateReason::GsmSimWrong => 48,
        CRDeviceStateReason::InfinibandMode => 49,
        CRDeviceStateReason::DependencyFailed => 50,
        CRDeviceStateReason::Br2684Failed => 51,
        CRDeviceStateReason::ModemManagerUnavailable => 52,
        CRDeviceStateReason::SsidNotFound => 53,
        CRDeviceStateReason::SecondaryConnectionFailed => 54,
        CRDeviceStateReason::DcbFcoeFailed => 55,
        CRDeviceStateReason::TeamdControlFailed => 56,
        CRDeviceStateReason::ModemFailed => 57,
        CRDeviceStateReason::ModemAvailable => 58,
        CRDeviceStateReason::SimPinIncorrect => 59,
        CRDeviceStateReason::NewActivation => 60,
        CRDeviceStateReason::ParentChanged => 61,
        CRDeviceStateReason::ParentManagedChanged => 62,
    }
}

impl CRDeviceStateReason {
    /// The libnm number of the value.
    pub fn code(&self) -> (r: u32)
        ensures
            r == device_state_reason_code(*self),
    {
        match self {
            CRDeviceStateReason::NoReason => 0,
            CRDeviceStateReason::Unknown => 1,
            CRDeviceStateReason::NowManaged => 2,
            CRDeviceStateReason::NowUnmanaged => 3,
            CRDeviceStateReason::ConfigFailed => 4,
            CRDeviceStateReason::IpConfigUnavailable => 5,
            CRDeviceStateReason::IpConfigExpired => 6,
            CRDeviceStateReason::NoSecrets => 7,
            CRDeviceStateReason::SupplicantDisconnect => 8,
            CRDeviceStateReason::SupplicantConfigFailed => 9,
            CRDeviceStateReason::SupplicantFailed => 10,
            CRDeviceStateReason::SupplicantTimeout => 11,
            CRDeviceStateReason::PppStartFailed => 12,
            CRDeviceStateReason::PppDisconnect => 13,
            CRDeviceStateReason::PppFailed => 14,
            CRDeviceStateReason::DhcpStartFailed => 15,
            CRDeviceStateReason::DhcpError => 16,
            CRDeviceStateReason::DhcpFailed => 17,
            CRDeviceStateReason::SharedStartFailed => 18,
            CRDeviceStateReason::SharedFailed => 19,
            CRDeviceStateReason::AutoIpStartFailed => 20,
            CRDeviceStateReason::AutoIpError => 21,
            CRDeviceStateReason::AutoIpFailed => 22,
            CRDeviceStateReason::ModemBusy => 23,
            CRDeviceStateReason::ModemNoDialTone => 24,
            CRDeviceStateReason::ModemNoCarrier => 25,
            CRDeviceStateReason::ModemDialTimeout => 26,
            CRDeviceStateReason::ModemDialFailed => 27,
            CRDeviceStateReason::ModemInitFailed => 28,
            CRDeviceStateReason::GsmApnFailed => 29,
            CRDeviceStateReason::GsmRegistrationNotSearching => 30,
            CRDeviceStateReason::GsmRegistrationDenied => 31,
            CRDeviceStateReason::GsmRegistrationTimeout => 32,
            CRDeviceStateReason::GsmRegistrationFailed => 33,
            CRDeviceStateReason::GsmPinCheckFailed => 34,
            CRDeviceStateReason::FirmwareMissing => 35,
            CRDeviceStateReason::Removed => 36,
            CRDeviceStateReason::Sleeping => 37,
            CRDeviceStateReason::ConnectionRemoved => 38,
            CRDeviceStateReason::UserRequested => 39,
            CRDeviceStateReason::Carrier => 40,
            CRDeviceStateReason::ConnectionAssumed => 41,
            CRDeviceStateReason::SupplicantAvailable => 42,
            CRDeviceStateReason::ModemNotFound => 43,
            CRDeviceStateReason::BtFailed => 44,
            CRDeviceStateReason::GsmSimNotInserted => 45,
            CRDeviceStateReason::GsmSimPinRequired => 46,
            CRDeviceStateReason::GsmSimPukRequired => 47,
            CRDeviceStateReason::GsmSimWrong => 48,
            CRDeviceStateReason::InfinibandMode => 49,
            CRDeviceStateReason::DependencyFailed => 50,
            CRDeviceStateReason::Br2684Failed => 51,
            CRDeviceStateReason::ModemManagerUnavailable => 52,
            CRDeviceStateReason::SsidNotFound => 53,
            CRDeviceStateReason::SecondaryConnectionFailed => 54,
            CRDeviceStateReason::DcbFcoeFailed => 55,
            CRDeviceStateReason::TeamdControlFailed => 56,
            CRDeviceStateReason::ModemFailed => 57,
            CRDeviceStateReason::ModemAvailable => 58,
            CRDeviceStateReason::SimPinIncorrect => 59,
            CRDeviceStateReason::NewActivation => 60,
            CRDeviceStateReason::ParentChanged => 61,
            CRDeviceStateReason::ParentManagedChanged => 62,
        }
    }
}

/// Connection type
#[derive(Debug, Clone, Copy, PartialEq, Eq, Structural)]
pub enum CRConnectionType {
    Ethernet,
    Wifi,
    Bluetooth,
    Vlan,
    Bridge,
    Bond,
    Vpn,
    Generic,
}

} // verus!
