//! The choice between the two waveform bundles of a panel.

use vstd::prelude::*;

verus! {

/// Selects the waveform tables that drive a refresh.
#[derive(Clone, Copy, Debug, PartialEq, Eq, Structural)]
pub enum RefreshLUT {
    /// The slow refresh that leaves no artifacts.
    FULL,
    /// The fast refresh, which may leave ghosting on the panel.
    QUICK,
}

impl Default for RefreshLUT {
    fn default() -> (lut: RefreshLUT)
        ensures
            lut == RefreshLUT::FULL,
    {
        RefreshLUT::FULL
    }
}

} // verus!
