//! The asset kind a pool settles in.

use vstd::prelude::*;

verus! {

/// Which concrete ledger-transfer path moves a pool's funds. The reward and
/// weight math is identical for both kinds; the tag only selects the
/// transfer implementation at the custody boundary.
#[derive(Clone, Copy, Debug, PartialEq, Eq, Structural)]
pub enum TokenType {
    /// A fungible token, held in a dedicated escrow account.
    SPL,
    /// The native asset, held directly in the pool's own account.
    SOL,
}

impl Default for TokenType {
    fn default() -> (r: Self)
        ensures
            r == TokenType::SPL,
    {
        TokenType::SPL
    }
}

} // verus!
