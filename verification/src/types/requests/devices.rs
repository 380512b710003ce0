use vstd::prelude::*;

verus! {

/// Body of a request that moves playback to other devices.
#[derive(Debug, Clone, PartialEq, Eq)]
pub struct TransferPlaybackRequest {
    pub device_ids: Vec<String>,
}

} // verus!
