pub mod alerts;
pub mod channels;
pub mod chat;
pub mod connect;
pub mod details;
pub mod firmware;
pub mod inspector;
pub mod logs;
pub mod map_tiles;
pub mod nodes;
pub mod reconnect;
pub mod remote_admin;
pub mod scan;
pub mod settings;
pub mod status;
pub mod topology;

use vstd::prelude::*;


use crate::domain::ids::{NodeId, PacketId};
use crate::domain::message::{DeliveryState, TextMessage};
use crate::domain::node::Node;
use crate::domain::profile::ConnectionProfile;
use crate::domain::session::{first_message_with_id, with_message_state};
use crate::domain::snapshot::{
    stably_sorted_by_time, upserted_channels, upserted_messages, DeviceSnapshot,
};
use crate::session::Event;
use crate::ui::chat::ChatUi;
use crate::ui::connect::ConnectUi;
use crate::ui::nodes::NodesUi;
use crate::ui::settings::SettingsUi;

verus! {

/// Where the link to the radio stands, as the interface shows it.
#[derive(Copy, Clone, Debug, PartialEq, Eq, Structural)]
pub enum SessionStatus {
    Disconnected,
    Connecting,
    Connected,
}

impl Default for SessionStatus {
    fn default() -> (r: Self)
        ensures
            r == SessionStatus::Disconnected,
    {
        SessionStatus::Disconnected
    }
}

/// The main tabs of the window.
#[derive(Copy, Clone, Debug, PartialEq, Eq, Structural)]
pub enum Tab {
    Chat,
    Nodes,
    Settings,
}

impl Default for Tab {
    fn default() -> (r: Self)
        ensures
            r == Tab::Chat,
    {
        Tab::Chat
    }
}

/// Everything the window shows and edits. The time of the last sign of life
/// from the radio is in milliseconds since the epoch.
#[derive(Debug)]
pub struct AppState {
    pub status: SessionStatus,
    pub snapshot: DeviceSnapshot,
    pub profiles: Vec<ConnectionProfile>,
    pub last_error: Option<String>,
    pub active_tab: Tab,
    pub last_activity_ms: Option<u64>,
    pub detail_node: Option<NodeId>,
    pub connect_ui: ConnectUi,
    pub chat_ui: ChatUi,
    pub nodes_ui: NodesUi,
    pub settings_ui: SettingsUi,
}

/// Whether an event shows that the radio is alive: everything it reports
/// except the connection's own progress, a drop and errors.
pub open spec fn activity(ev: Event) -> bool {
    !(ev is Connecting || ev is Disconnected || ev is Error)
}

/// Whether an event shows that the radio is alive.
pub fn is_activity(ev: &Event) -> (r: bool)
    ensures
        r == activity(*ev),
{
    match ev {
        Event::Connecting | Event::Disconnected | Event::Error(_) => false,
        _ => true,
    }
}

/// `ms` with each message of `history` recorded in turn, as
/// `upsert_message` records one.
pub open spec fn with_history(ms: Seq<TextMessage>, history: Seq<TextMessage>) -> Seq<TextMessage>
    decreases history.len(),
{
    if history.len() == 0 {
        ms
    } else {
        upserted_messages(with_history(ms, history.drop_last()), history.last())
    }
}

/// How the snapshot changes with an event that sets one configuration
/// section; other events not named in `AppState::reduce` leave it alone.
pub open spec fn snapshot_after(s: DeviceSnapshot, ev: Event) -> DeviceSnapshot {
    match ev {
        Event::LoraUpdated(v) => DeviceSnapshot { lora: Some(v), ..s },
        Event::DeviceUpdated(v) => DeviceSnapshot { device: Some(v), ..s },
        Event::PositionUpdated(v) => DeviceSnapshot { position: Some(v), ..s },
        Event::PowerUpdated(v) => DeviceSnapshot { power: Some(v), ..s },
        Event::NetworkUpdated(v) => DeviceSnapshot { network: Some(v), ..s },
        Event::DisplayUpdated(v) => DeviceSnapshot { display: Some(v), ..s },
        Event::BluetoothUpdated(v) => DeviceSnapshot { bluetooth: Some(v), ..s },
        _ => s,
    }
}

/// A configuration section reported by the radio replaces that section of
/// the snapshot, and leaves every other part of it as it was.
pub proof fn lemma_config_update_recorded(s: DeviceSnapshot, ev: Event)
    ensures
        ev matches Event::LoraUpdated(v) ==> snapshot_after(s, ev) == (DeviceSnapshot { lora: Some(v), ..s }),
        ev matches Event::DeviceUpdated(v) ==> snapshot_after(s, ev) == (DeviceSnapshot { device: Some(v), ..s }),
        ev matches Event::PositionUpdated(v) ==> snapshot_after(s, ev) == (DeviceSnapshot { position: Some(v), ..s }),
        ev matches Event::PowerUpdated(v) ==> snapshot_after(s, ev) == (DeviceSnapshot { power: Some(v), ..s }),
        ev matches Event::NetworkUpdated(v) ==> snapshot_after(s, ev) == (DeviceSnapshot { network: Some(v), ..s }),
        ev matches Event::DisplayUpdated(v) ==> snapshot_after(s, ev) == (DeviceSnapshot { display: Some(v), ..s }),
        ev matches Event::BluetoothUpdated(v) ==> snapshot_after(s, ev) == (DeviceSnapshot { bluetooth: Some(v), ..s }),
{
}

/// The nodes table keeps everything but its record of recently updated rows.
pub open spec fn nodes_ui_kept(a: NodesUi, b: NodesUi) -> bool {
    &&& b.sort == a.sort
    &&& b.ascending == a.ascending
    &&& b.search == a.search
    &&& b.seen_live@ == a.seen_live@
    &&& b.persisted_saved_at@ == a.persisted_saved_at@
}

impl AppState {
    /// The state at start-up, with the saved connection profiles.
    pub fn new(profiles: Vec<ConnectionProfile>) -> (r: Self)
        ensures
            r.status == SessionStatus::Disconnected,
            r.profiles@ == profiles@,
            r.last_error is None,
            r.active_tab == Tab::Chat,
            r.last_activity_ms is None,
            r.detail_node is None,
            r.snapshot.nodes@ == Map::<u32, Node>::empty(),
            r.snapshot.channels@.len() == 0 && r.snapshot.messages@.len() == 0,
    {
        AppState {
            status: SessionStatus::Disconnected,
            snapshot: DeviceSnapshot::default(),
            profiles,
            last_error: None,
            active_tab: Tab::Chat,
            last_activity_ms: None,
            detail_node: None,
            connect_ui: ConnectUi::default(),
            chat_ui: ChatUi::default(),
            nodes_ui: NodesUi::default(),
            settings_ui: SettingsUi::default(),
        }
    }

    /// Whether a radio is connected and ready.
    pub fn connected(&self) -> (r: bool)
        ensures
            r == (self.status == SessionStatus::Connected),
    {
        match self.status {
            SessionStatus::Connected => true,
            _ => false,
        }
    }

    fn apply_connected(&mut self, snap: DeviceSnapshot, history: Vec<TextMessage>)
        ensures
            final(self).status == SessionStatus::Connected,
            stably_sorted_by_time(
                with_history(snap.messages@, history@),
                final(self).snapshot.messages@,
            ),
            final(self).snapshot == (DeviceSnapshot {
                messages: final(self).snapshot.messages,
                ..snap
            }),
            *final(self) == (AppState {
                status: final(self).status,
                snapshot: final(self).snapshot,
                ..*old(self)
            }),
    {
        self.status = SessionStatus::Connected;
        let mut snapshot = snap;
        let mut i: usize = 0;
        while i < history.len()
            invariant
                i <= history@.len(),
                snapshot.messages@ == with_history(snap.messages@, history@.take(i as int)),
                snapshot == (DeviceSnapshot { messages: snapshot.messages, ..snap }),
            decreases history.len() - i,
        {
            let m = history[i].clone();
            assert(history@.take(i as int + 1).drop_last() =~= history@.take(i as int));
            snapshot.upsert_message(m);
            i = i + 1;
        }
        assert(history@.take(history@.len() as int) =~= history@);
        snapshot.sort_messages_by_time();
        self.snapshot = snapshot;
    }

    fn apply_node_updated(&mut self, node: Node, now_ms: u64)
        ensures
            final(self).snapshot.nodes@ == old(self).snapshot.nodes@.insert(node.id.0, node),
            final(self).snapshot == (DeviceSnapshot {
                nodes: final(self).snapshot.nodes,
                long_name: if node.id == old(self).snapshot.my_node && node.long_name@.len() > 0 {
                    node.long_name
                } else {
                    old(self).snapshot.long_name
                },
                short_name: if node.id == old(self).snapshot.my_node && node.short_name@.len() > 0 {
                    node.short_name
                } else {
                    old(self).snapshot.short_name
                },
                ..old(self).snapshot
            }),
            final(self).nodes_ui.recently_updated@ == old(self).nodes_ui.recently_updated@.insert(
                node.id.0,
                now_ms,
            ),
            nodes_ui_kept(old(self).nodes_ui, final(self).nodes_ui),
            *final(self) == (AppState {
                snapshot: final(self).snapshot,
                nodes_ui: final(self).nodes_ui,
                ..*old(self)
            }),
    {
        if node.id == self.snapshot.my_node {
            if !node.long_name.as_str().is_empty() {
                self.snapshot.long_name = node.long_name.clone();
            }
            if !node.short_name.as_str().is_empty() {
                self.snapshot.short_name = node.short_name.clone();
            }
        }
        self.nodes_ui.mark_updated(node.id, now_ms);
        let _ = self.snapshot.nodes.insert(node.id.0, node);
    }

    fn apply_state_changed(&mut self, id: PacketId, state: DeliveryState)
        ensures
            final(self).snapshot.messages@ == with_message_state(old(self).snapshot.messages@, id, state),
            final(self).snapshot == (DeviceSnapshot {
                messages: final(self).snapshot.messages,
                ..old(self).snapshot
            }),
            *final(self) == (AppState { snapshot: final(self).snapshot, ..*old(self) }),
    {
        let ghost ms = self.snapshot.messages@;
        let n = self.snapshot.messages.len();
        let mut i: usize = 0;
        while i < n
            invariant
                n == ms.len(),
                ms == old(self).snapshot.messages@,
                *self == *old(self),
                i <= n,
                first_message_with_id(ms, id, 0) == first_message_with_id(ms, id, i as int),
            decreases n - i,
        {
            if self.snapshot.messages[i].id == id {
                let mut updated = self.snapshot.messages[i].clone();
                updated.state = state;
                self.snapshot.messages.set(i, updated);
                assert(self.snapshot.messages@ =~= with_message_state(ms, id, state));
                return;
            }
            i = i + 1;
        }
        assert(first_message_with_id(ms, id, n as int) == -1);
    }

    /// Takes one event from the session into the state, at `now_ms`.
    /// `history` holds the messages stored for this radio when the event is
    /// the radio becoming ready (they are merged into its snapshot, which is
    /// then ordered by time), and is not read otherwise.
    pub fn reduce(&mut self, ev: Event, now_ms: u64, history: Vec<TextMessage>)
        ensures
            final(self).last_activity_ms == if activity(ev) {
                Some(now_ms)
            } else if ev is Disconnected {
                None
            } else {
                old(self).last_activity_ms
            },
            final(self).status == match ev {
                Event::Connecting => SessionStatus::Connecting,
                Event::Connected(_) => SessionStatus::Connected,
                Event::Disconnected => SessionStatus::Disconnected,
                _ => old(self).status,
            },
            final(self).last_error == match ev {
                Event::Connecting => None,
                Event::Error(msg) => Some(msg),
                _ => old(self).last_error,
            },
            match ev {
                Event::Connected(snap) => {
                    &&& stably_sorted_by_time(
                        with_history(snap.messages@, history@),
                        final(self).snapshot.messages@,
                    )
                    &&& final(self).snapshot == (DeviceSnapshot {
                        messages: final(self).snapshot.messages,
                        ..*snap
                    })
                },
                Event::NodeUpdated(node) => {
                    &&& final(self).snapshot.nodes@ == old(self).snapshot.nodes@.insert(
                        node.id.0,
                        node,
                    )
                    &&& final(self).snapshot == (DeviceSnapshot {
                        nodes: final(self).snapshot.nodes,
                        long_name: if node.id == old(self).snapshot.my_node
                            && node.long_name@.len() > 0 {
                            node.long_name
                        } else {
                            old(self).snapshot.long_name
                        },
                        short_name: if node.id == old(self).snapshot.my_node
                            && node.short_name@.len() > 0 {
                            node.short_name
                        } else {
                            old(self).snapshot.short_name
                        },
                        ..old(self).snapshot
                    })
                },
                Event::ChannelUpdated(c) => {
                    &&& final(self).snapshot.channels@ == upserted_channels(
                        old(self).snapshot.channels@,
                        c,
                    )
                    &&& final(self).snapshot == (DeviceSnapshot {
                        channels: final(self).snapshot.channels,
                        ..old(self).snapshot
                    })
                },
                Event::MessageReceived(m) => {
                    &&& final(self).snapshot.messages@ == upserted_messages(
                        old(self).snapshot.messages@,
                        m,
                    )
                    &&& final(self).snapshot == (DeviceSnapshot {
                        messages: final(self).snapshot.messages,
                        ..old(self).snapshot
                    })
                },
                Event::MessageStateChanged { id, state } => {
                    &&& final(self).snapshot.messages@ == with_message_state(
                        old(self).snapshot.messages@,
                        id,
                        state,
                    )
                    &&& final(self).snapshot == (DeviceSnapshot {
                        messages: final(self).snapshot.messages,
                        ..old(self).snapshot
                    })
                },
                _ => final(self).snapshot == snapshot_after(old(self).snapshot, ev),
            },
            ev matches Event::LoraUpdated(v) ==> final(self).snapshot.lora == Some(v),
            ev matches Event::DeviceUpdated(v) ==> final(self).snapshot.device == Some(v),
            ev matches Event::PositionUpdated(v) ==> final(self).snapshot.position == Some(v),
            ev matches Event::PowerUpdated(v) ==> final(self).snapshot.power == Some(v),
            ev matches Event::NetworkUpdated(v) ==> final(self).snapshot.network == Some(v),
            ev matches Event::DisplayUpdated(v) ==> final(self).snapshot.display == Some(v),
            ev matches Event::BluetoothUpdated(v) ==> final(self).snapshot.bluetooth == Some(v),
            match ev {
                Event::NodeUpdated(node) => {
                    &&& final(self).nodes_ui.recently_updated@
                        == old(self).nodes_ui.recently_updated@.insert(node.id.0, now_ms)
                    &&& nodes_ui_kept(old(self).nodes_ui, final(self).nodes_ui)
                },
                _ => final(self).nodes_ui == old(self).nodes_ui,
            },
            *final(self) == (AppState {
                status: final(self).status,
                snapshot: final(self).snapshot,
                last_error: final(self).last_error,
                last_activity_ms: final(self).last_activity_ms,
                nodes_ui: final(self).nodes_ui,
                ..*old(self)
            }),
    {
        if is_activity(&ev) {
            self.last_activity_ms = Some(now_ms);
        }
        match ev {
            Event::Connecting => {
                self.status = SessionStatus::Connecting;
                self.last_error = None;
            },
            Event::Connected(snap) => self.apply_connected(*snap, history),
            Event::NodeUpdated(node) => self.apply_node_updated(node, now_ms),
            Event::ChannelUpdated(ch) => self.snapshot.upsert_channel(ch),
            Event::LoraUpdated(v) => self.snapshot.lora = Some(v),
            Event::DeviceUpdated(v) => self.snapshot.device = Some(v),
            Event::PositionUpdated(v) => self.snapshot.position = Some(v),
            Event::PowerUpdated(v) => self.snapshot.power = Some(v),
            Event::NetworkUpdated(v) => self.snapshot.network = Some(v),
            Event::DisplayUpdated(v) => self.snapshot.display = Some(v),
            Event::BluetoothUpdated(v) => self.snapshot.bluetooth = Some(v),
            Event::MessageReceived(m) => self.snapshot.upsert_message(m),
            Event::MessageStateChanged { id, state } => self.apply_state_changed(id, state),
            Event::Disconnected => {
                self.status = SessionStatus::Disconnected;
                self.last_activity_ms = None;
            },
            Event::Error(msg) => {
                self.last_error = Some(msg);
            },
        }
    }
}

} // verus!
