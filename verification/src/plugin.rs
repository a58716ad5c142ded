//! Connection configurations as the network plugins take them.

use vstd::prelude::*;

verus! {

/// A setting value of a plugin configuration.
#[derive(Debug, Clone)]
pub enum SettingValue {
    Str(String),
    UInt(u64),
    StrList(Vec<String>),
}

/// A setting value with its strings taken as character sequences.
pub enum SettingView {
    Str(Seq<char>),
    UInt(nat),
    StrList(Seq<Seq<char>>),
}

impl View for SettingValue {
    type V = SettingView;

    open spec fn view(&self) -> SettingView {
        match *self {
            SettingValue::Str(s) => SettingView::Str(s@),
            SettingValue::UInt(n) => SettingView::UInt(n as nat),
            SettingValue::StrList(l) => SettingView::StrList(l@.map_values(|x: String| x@)),
        }
    }
}

/// The configuration of a connection handed to a plugin.
#[derive(Debug, Clone)]
pub struct ConnectionConfig {
    pub uuid: String,
    pub name: String,
    pub conn_type: String,
    /// Named settings; no name occurs twice.
    pub settings: Vec<(String, SettingValue)>,
    pub autoconnect: bool,
}

/// The settings as (name, value) pairs.
pub open spec fn settings_view(s: Seq<(String, SettingValue)>) -> Seq<(Seq<char>, SettingView)> {
    s.map_values(|e: (String, SettingValue)| (e.0@, e.1@))
}


/// The lifecycle state of a network plugin.
#[derive(Debug, Clone, Copy, PartialEq, Eq, Structural)]
pub enum PluginState {
    Uninitialized,
    Initializing,
    Ready,
    Activating,
    Active,
    Deactivating,
    Failed,
    Disabled,
}

} // verus!
