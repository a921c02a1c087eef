//! What a light client asks of a remote node.

use vstd::prelude::*;

verus! {

/// The header of a block, as far as a proof is checked against it.
pub struct Header {
    /// The root of the state after the block.
    pub state_root: [u8; 32],
}

impl Header {
    /// The root of the state after the block.
    pub fn state_root(&self) -> (root: &[u8; 32])
        ensures
            *root == self.state_root,
    {
        &self.state_root
    }
}

/// Remote call request.
pub struct RemoteCallRequest {
    /// Header of block at which call is performed; its state root is trusted.
    pub header: Header,
    /// Method to call.
    pub method: String,
    /// Call data.
    pub call_data: Vec<u8>,
}

} // verus!
