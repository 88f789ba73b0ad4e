use vstd::prelude::*;

verus! {

/// A fetched or locally built block: its slot number and its hash, as a
/// lowercase hex string.
#[derive(Debug)]
pub struct SolanaBlock {
    pub slot: u64,
    pub blockhash: String,
}

} // verus!
