use vstd::prelude::*;

verus! {

/// Creation parameters: an optional owner other than the creator, and the
/// denomination that tickets are paid and prizes are paid out in.
#[derive(Debug, PartialEq, Eq)]
pub struct InstantiateMsg {
    pub owner: Option<String>,
    pub main_denom: String,
}

#[derive(Debug, PartialEq, Eq)]
pub enum ExecuteMsg {
    Shoot {},
    GoalShot { player_address: String },
    SetTicketPrice { new_ticket_price: u128 },
    SetRewardPercentage { new_reward_percentage: u8 },
    SetAdminPercentage { new_admin_percentage: u8 },
}

#[derive(Debug, PartialEq, Eq)]
pub enum QueryMsg {
    QueryConfig {},
    QueryShootDeadline { address: String },
    QueryBalance {},
}

#[derive(Debug, PartialEq, Eq)]
pub struct ConfigResponse {
    pub owner: String,
    pub ticket_price: u128,
    pub reward_percentage: u8,
    pub admin_percentage: u8,
    pub shoot_duration: u8,
}

#[derive(Debug, PartialEq, Eq)]
pub struct ShootDeadlineResponse {
    pub shoot_deadline: u64,
}

#[derive(Debug, PartialEq, Eq)]
pub struct ContractBalanceResponse {
    pub amount: u128,
}

/// The answer to a [`QueryMsg`], one variant per query.
#[derive(Debug, PartialEq, Eq)]
pub enum QueryResponse {
    Config(ConfigResponse),
    ShootDeadline(ShootDeadlineResponse),
    Balance(ContractBalanceResponse),
}

/// An amount of one denomination, in its smallest unit.
#[derive(Debug, PartialEq, Eq)]
pub struct Coin {
    pub denom: String,
    pub amount: u128,
}

/// Who sent a message and which coins came with it.
#[derive(Debug, PartialEq, Eq)]
pub struct MessageInfo {
    pub sender: String,
    pub funds: Vec<Coin>,
}

} // verus!
