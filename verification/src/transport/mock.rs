use vstd::prelude::*;

verus! {

/// The frames a scripted link delivers, in order, before any injected one.
#[derive(Debug)]
pub struct Script {
    pub frames: Vec<Vec<u8>>,
}

impl Script {
    /// A script that delivers `frames`, in order.
    pub fn from_frames(frames: Vec<Vec<u8>>) -> (r: Self)
        ensures
            r.frames == frames,
    {
        Script { frames }
    }
}

} // verus!
