use vstd::prelude::*;

use crate::domain::profile::ConnectionProfile;

verus! {

/// The saved connection profiles and the key of the one last used.
#[derive(Debug)]
pub struct Stored {
    pub profiles: Vec<ConnectionProfile>,
    pub last_active: Option<String>,
}

impl Default for Stored {
    fn default() -> (r: Self)
        ensures
            r.profiles@.len() == 0,
            r.last_active is None,
    {
        Stored { profiles: Vec::new(), last_active: None }
    }
}

} // verus!
