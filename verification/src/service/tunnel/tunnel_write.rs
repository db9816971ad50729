//! The writing half of a port.
use vstd::prelude::*;

use crate::util::channel_helper::ChannelSender;

verus! {

/// The writing half of port `id`: it sends on `tx`.
#[verifier::reject_recursive_types(T)]
pub struct TunnelWriter<T> {
    pub id: u32,
    pub tx: ChannelSender<T>,
}

impl<T> TunnelWriter<T> {
    pub fn get_id(&self) -> (id: u32)
        ensures
            id == self.id,
    {
        self.id
    }
}

} // verus!
