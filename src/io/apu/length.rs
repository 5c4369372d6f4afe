use vstd::prelude::*;

verus! {

/// The length counter of a channel.
pub struct Length {
    /// counting enabled (bit 6 of NRx4)
    pub enable: bool,
    /// steps left before the channel is silenced
    pub counter: u16,
}

impl Length {
    pub fn new() -> (r: Length)
        ensures
            !r.enable && r.counter == 0,
    {
        Length { enable: false, counter: 0 }
    }
}

} // verus!
