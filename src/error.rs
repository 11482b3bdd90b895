use vstd::prelude::*;

verus! {

/// Why an operation on the contract was rejected. A rejected operation changes nothing.
#[derive(Debug, PartialEq, Eq)]
pub enum ContractError {
    /// The caller is not the configured owner.
    Unauthorized,
    /// The caller attached no coin, or a correct ticket together with other coins.
    InvalidFund,
    /// The first coin attached is not the ticket price in the configured denomination.
    InvalidPriceIndex0 {
        expected_amount: u128,
        expected_denom: String,
        actual_amount: u128,
        actual_denom: String,
    },
    /// The player's shooting window has closed.
    ShootDeadlinePassed,
    /// The player never shot.
    PlayerNotJoined,
}

} // verus!
