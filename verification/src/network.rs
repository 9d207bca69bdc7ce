//! What the manager sees of the network: the height of the chain.

use vstd::prelude::*;
use crate::error::Error;
use crate::message::{Message, Request};

verus! {

#[derive(Debug)]
pub struct ManagerNetworkState {
    pub blockheight: Option<u64>,
    pub warning: Option<Error>,
}

impl ManagerNetworkState {
    pub fn new() -> (r: ManagerNetworkState)
        ensures
            r.blockheight is None,
            r.warning is None,
    {
        ManagerNetworkState { blockheight: None, warning: None }
    }

    /// Takes in the block height, or the daemon's failure as the warning,
    /// which leaves the last known height in place. Other events change nothing.
    pub fn update(&mut self, message: Message) -> (request: Option<Request>)
        ensures
            request is None,
            match message {
                Message::BlockHeight(Ok(height)) => *final(self) == (ManagerNetworkState {
                    blockheight: Some(height),
                    ..*old(self)
                }),
                Message::BlockHeight(Err(e)) => *final(self) == (ManagerNetworkState {
                    warning: Some(Error::Daemon(e)),
                    ..*old(self)
                }),
                _ => *final(self) == *old(self),
            },
    {
        match message {
            Message::BlockHeight(Ok(height)) => {
                self.blockheight = Some(height);
            },
            Message::BlockHeight(Err(e)) => {
                self.warning = Some(Error::Daemon(e));
            },
            _ => {},
        }
        None
    }

    /// The request that fills the state: the block height.
    pub fn load(&self) -> (r: Vec<Request>)
        ensures
            r@ == seq![Request::BlockHeight],
    {
        let mut r = Vec::new();
        r.push(Request::BlockHeight);
        assert(r@ =~= seq![Request::BlockHeight]);
        r
    }
}

} // verus!
