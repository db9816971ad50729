//! The reading half of a port.
use vstd::prelude::*;

use crate::util::channel_helper::{ChannelReceiver, ChannelSender};

verus! {

/// The reading half of port `id`: it receives on `rx` and can still report on `tx`.
#[verifier::reject_recursive_types(T)]
#[verifier::reject_recursive_types(U)]
pub struct TunnelReader<T, U> {
    pub id: u32,
    pub tx: ChannelSender<T>,
    pub rx: Option<ChannelReceiver<U>>,
}

impl<T, U> TunnelReader<T, U> {
    pub fn get_id(&self) -> (id: u32)
        ensures
            id == self.id,
    {
        self.id
    }
}

} // verus!
