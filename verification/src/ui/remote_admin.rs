use vstd::prelude::*;

use crate::domain::ids::NodeId;
use crate::session::commands::AdminAction;

verus! {

/// The remote administration window: the node it targets, the action
/// awaiting confirmation, and the last action sent.
#[derive(Debug)]
pub struct RemoteAdminUi {
    pub target: Option<NodeId>,
    pub pending: Option<AdminAction>,
    pub last_dispatched: Option<String>,
}

impl Default for RemoteAdminUi {
    fn default() -> (r: Self)
        ensures
            r.target is None,
            r.pending is None,
            r.last_dispatched is None,
    {
        RemoteAdminUi { target: None, pending: None, last_dispatched: None }
    }
}

/// The actions offered, in the order shown: the three with a delay wait
/// five seconds.
pub fn remote_admin_actions() -> (r: [AdminAction; 6])
    ensures
        r@ == seq![
            AdminAction::Reboot { seconds: 5 },
            AdminAction::Shutdown { seconds: 5 },
            AdminAction::RebootOta { seconds: 5 },
            AdminAction::NodedbReset,
            AdminAction::FactoryResetConfig,
            AdminAction::FactoryResetDevice,
        ],
{
    let r = [
        AdminAction::Reboot { seconds: 5 },
        AdminAction::Shutdown { seconds: 5 },
        AdminAction::RebootOta { seconds: 5 },
        AdminAction::NodedbReset,
        AdminAction::FactoryResetConfig,
        AdminAction::FactoryResetDevice,
    ];
    assert(r@ =~= seq![
        AdminAction::Reboot { seconds: 5 },
        AdminAction::Shutdown { seconds: 5 },
        AdminAction::RebootOta { seconds: 5 },
        AdminAction::NodedbReset,
        AdminAction::FactoryResetConfig,
        AdminAction::FactoryResetDevice,
    ]);
    r
}

impl RemoteAdminUi {
    /// Closes the window: nothing targeted, pending or reported.
    pub fn close(&mut self)
        ensures
            final(self).target is None,
            final(self).pending is None,
            final(self).last_dispatched is None,
    {
        self.target = None;
        self.pending = None;
        self.last_dispatched = None;
    }
}

} // verus!
