use vstd::prelude::*;

use crate::domain::config::{
    BluetoothSettings, DeviceSettings, DisplaySettings, LoraSettings, NetworkSettings,
    PositionSettings, PowerSettings,
};
use crate::domain::ids::{ChannelIndex, NodeId, PacketId};
use crate::domain::message::Recipient;
use crate::domain::profile::ConnectionProfile;

verus! {

/// What the user interface asks the session to do. A fixed position is given
/// in integer units of 1e-7 degrees, as the radio stores it.
#[derive(Debug)]
pub enum Command {
    Connect(ConnectionProfile),
    Disconnect,
    SendText { channel: ChannelIndex, to: Recipient, text: String, want_ack: bool },
    AckTimeout(PacketId),
    SetOwner { long_name: String, short_name: String },
    SetLora(LoraSettings),
    SetDevice(DeviceSettings),
    SetPosition(PositionSettings),
    SetPower(PowerSettings),
    SetNetwork(NetworkSettings),
    SetDisplay(DisplaySettings),
    SetBluetooth(BluetoothSettings),
    SetFixedPosition { latitude_i: i32, longitude_i: i32, altitude_m: i32 },
    RemoveFixedPosition,
    Admin(AdminAction),
    SetFavorite { node: NodeId, favorite: bool },
    SetIgnored { node: NodeId, ignored: bool },
}

/// A maintenance request for the radio itself.
#[derive(Copy, Clone, Debug, Eq, PartialEq, Structural)]
pub enum AdminAction {
    Reboot { seconds: i32 },
    Shutdown { seconds: i32 },
    RebootOta { seconds: i32 },
    FactoryResetDevice,
    FactoryResetConfig,
    NodedbReset,
}

/// The short name of an action, for buttons and confirmations.
pub open spec fn admin_label_text(a: AdminAction) -> Seq<char> {
    match a {
        AdminAction::Reboot { .. } => "Reboot"@,
        AdminAction::Shutdown { .. } => "Shutdown"@,
        AdminAction::RebootOta { .. } => "Reboot to OTA"@,
        AdminAction::FactoryResetDevice => "Factory reset (device)"@,
        AdminAction::FactoryResetConfig => "Factory reset (config only)"@,
        AdminAction::NodedbReset => "Reset NodeDB"@,
    }
}

/// Whether an action loses data or leaves the radio unreachable: everything
/// but a plain reboot.
pub open spec fn admin_destructive(a: AdminAction) -> bool {
    !(a is Reboot)
}

/// What the confirmation dialog of an action says will happen.
pub open spec fn admin_warning_text(a: AdminAction) -> Seq<char> {
    match a {
        AdminAction::Reboot { .. } => "The device will reboot in a few seconds."@,
        AdminAction::Shutdown {
            ..
        } => "The device will power off. You'll need to press its button to turn it back on."@,
        AdminAction::RebootOta {
            ..
        } => "Reboots into OTA update mode. Firmware flashing happens in a separate tool."@,
        AdminAction::FactoryResetDevice => "Wipes ALL configuration, channels, the NodeDB and keys. The device returns to factory defaults \u{2014} this is irreversible."@,
        AdminAction::FactoryResetConfig => "Wipes all device configuration (device/LoRa/position/etc) and channels. Keeps the NodeDB. Irreversible."@,
        AdminAction::NodedbReset => "Clears the device's list of known nodes. They'll repopulate as nodes reappear on the mesh."@,
    }
}

/// Which of the six kinds an action is; the delay of a timed one is not
/// part of its kind.
pub open spec fn admin_kind(a: AdminAction) -> nat {
    match a {
        AdminAction::Reboot { .. } => 0,
        AdminAction::Shutdown { .. } => 1,
        AdminAction::RebootOta { .. } => 2,
        AdminAction::FactoryResetDevice => 3,
        AdminAction::FactoryResetConfig => 4,
        AdminAction::NodedbReset => 5,
    }
}

/// The length of each kind's warning.
spec fn admin_warning_len(a: AdminAction) -> nat {
    match a {
        AdminAction::Reboot { .. } => 40,
        AdminAction::Shutdown { .. } => 78,
        AdminAction::RebootOta { .. } => 75,
        AdminAction::FactoryResetDevice => 118,
        AdminAction::FactoryResetConfig => 103,
        AdminAction::NodedbReset => 90,
    }
}

proof fn lemma_admin_warning_len(a: AdminAction)
    ensures
        admin_warning_text(a).len() == admin_warning_len(a),
{
    match a {
        AdminAction::Reboot { .. } => {
            reveal_strlit("The device will reboot in a few seconds.");
        },
        AdminAction::Shutdown { .. } => {
            reveal_strlit("The device will power off. You'll need to press its button to turn it back on.");
        },
        AdminAction::RebootOta { .. } => {
            reveal_strlit("Reboots into OTA update mode. Firmware flashing happens in a separate tool.");
        },
        AdminAction::FactoryResetDevice => {
            reveal_strlit("Wipes ALL configuration, channels, the NodeDB and keys. The device returns to factory defaults \u{2014} this is irreversible.");
        },
        AdminAction::FactoryResetConfig => {
            reveal_strlit("Wipes all device configuration (device/LoRa/position/etc) and channels. Keeps the NodeDB. Irreversible.");
        },
        AdminAction::NodedbReset => {
            reveal_strlit("Clears the device's list of known nodes. They'll repopulate as nodes reappear on the mesh.");
        },
    }
}

/// Every action has a warning, and two actions have the same warning
/// exactly when they are of the same kind: the six kinds warn differently
/// and a delay never changes the text.
pub proof fn lemma_admin_warnings_distinct(a: AdminAction, b: AdminAction)
    ensures
        admin_warning_text(a).len() > 0,
        admin_warning_text(a) == admin_warning_text(b) <==> admin_kind(a) == admin_kind(b),
{
    lemma_admin_warning_len(a);
    lemma_admin_warning_len(b);
}

impl AdminAction {
    /// The short name of the action.
    pub fn label(self) -> (r: &'static str)
        ensures
            r@ == admin_label_text(self),
    {
        match self {
            AdminAction::Reboot { .. } => "Reboot",
            AdminAction::Shutdown { .. } => "Shutdown",
            AdminAction::RebootOta { .. } => "Reboot to OTA",
            AdminAction::FactoryResetDevice => "Factory reset (device)",
            AdminAction::FactoryResetConfig => "Factory reset (config only)",
            AdminAction::NodedbReset => "Reset NodeDB",
        }
    }

    /// Whether the action needs an explicit confirmation.
    pub fn is_destructive(self) -> (r: bool)
        ensures
            r == admin_destructive(self),
    {
        match self {
            AdminAction::FactoryResetDevice
            | AdminAction::FactoryResetConfig
            | AdminAction::NodedbReset
            | AdminAction::Shutdown { .. }
            | AdminAction::RebootOta { .. } => true,
            AdminAction::Reboot { .. } => false,
        }
    }

    /// What the confirmation dialog says.
    pub fn warning(self) -> (r: &'static str)
        ensures
            r@ == admin_warning_text(self),
    {
        match self {
            AdminAction::Reboot { .. } => "The device will reboot in a few seconds.",
            AdminAction::Shutdown {
                ..
            } => "The device will power off. You'll need to press its button to turn it back on.",
            AdminAction::RebootOta {
                ..
            } => "Reboots into OTA update mode. Firmware flashing happens in a separate tool.",
            AdminAction::FactoryResetDevice => "Wipes ALL configuration, channels, the NodeDB and keys. The device returns to factory defaults \u{2014} this is irreversible.",
            AdminAction::FactoryResetConfig => "Wipes all device configuration (device/LoRa/position/etc) and channels. Keeps the NodeDB. Irreversible.",
            AdminAction::NodedbReset => "Clears the device's list of known nodes. They'll repopulate as nodes reappear on the mesh.",
        }
    }
}

} // verus!
