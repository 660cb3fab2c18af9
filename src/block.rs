use vstd::prelude::*;
use crate::error::SessionError;

verus! {

/// A block named by its position in the chain.
#[derive(Clone, Copy, Debug, PartialEq, Eq, Structural)]
pub enum BlockTag {
    /// The newest block the client knows of, finalized or not.
    Latest,
    /// The newest finalized block.
    Finalized,
    /// The block at a given height.
    Number(u64),
}

/// A read of one block through a client.
#[derive(Clone, Copy, Debug, PartialEq, Eq, Structural)]
pub struct BlockQuery {
    pub tag: BlockTag,
    /// Whether the block is to carry whole transactions rather than their
    /// hashes.
    pub full_transactions: bool,
}

/// The read that a request for the latest block issues: the newest known
/// block, with transaction hashes only.
pub fn latest_block_query() -> (r: BlockQuery)
    ensures
        r == (BlockQuery { tag: BlockTag::Latest, full_transactions: false }),
{
    BlockQuery { tag: BlockTag::Latest, full_transactions: false }
}

/// Classifies the outcome of a block read: a failure becomes `QueryFailed`
/// with its cause, a block is passed on unchanged.
pub fn read_outcome<B>(read: Result<B, String>) -> (r: Result<B, SessionError>)
    ensures
        match read {
            Ok(b) => r == Ok::<B, SessionError>(b),
            Err(cause) => r == Err::<B, SessionError>(SessionError::QueryFailed(cause)),
        },
{
    match read {
        Ok(b) => Ok(b),
        Err(cause) => Err(SessionError::QueryFailed(cause)),
    }
}

/// Classifies the outcome of encoding a block: a failure becomes
/// `SerializationFailed` with its cause, an encoded value is passed on
/// unchanged.
pub fn encode_outcome<V>(encoded: Result<V, String>) -> (r: Result<V, SessionError>)
    ensures
        match encoded {
            Ok(v) => r == Ok::<V, SessionError>(v),
            Err(cause) => r == Err::<V, SessionError>(SessionError::SerializationFailed(cause)),
        },
{
    match encoded {
        Ok(v) => Ok(v),
        Err(cause) => Err(SessionError::SerializationFailed(cause)),
    }
}

} // verus!
