use vstd::prelude::*;
use crate::error::SessionError;

verus! {

/// The networks a light client can follow.
#[derive(Clone, Copy, Debug, PartialEq, Eq, Structural)]
pub enum Network {
    Mainnet,
}

/// The chain id of Ethereum mainnet.
pub const MAINNET_CHAIN_ID: u64 = 1;

/// The network that a chain id names, if it is a supported one.
pub open spec fn network_of(chain_id: u64) -> Option<Network> {
    if chain_id == MAINNET_CHAIN_ID {
        Some(Network::Mainnet)
    } else {
        None
    }
}

/// Resolves a chain id to its network; any id without a network is refused
/// as `UnsupportedChain`.
pub fn get_network(chain_id: u64) -> (r: Result<Network, SessionError>)
    ensures
        match network_of(chain_id) {
            Some(n) => r == Ok::<Network, SessionError>(n),
            None => r == Err::<Network, SessionError>(SessionError::UnsupportedChain(chain_id)),
        },
{
    if chain_id == MAINNET_CHAIN_ID {
        Ok(Network::Mainnet)
    } else {
        Err(SessionError::UnsupportedChain(chain_id))
    }
}

} // verus!
