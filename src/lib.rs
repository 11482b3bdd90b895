//! A jackpot game's rules, verified: players buy a time-boxed chance to score by
//! paying a ticket, and the owner declares goals that pay the scorer and the
//! owner a percentage of the pool. Storage, the bank and message encoding are
//! the host's; every operation here takes the state and the host's facts (the
//! block time, the pool balance) as values and returns the new state, the
//! reported attributes and the transfers to make.

pub mod contract;
pub mod error;
pub mod msg;
pub mod response;
pub mod settlement;
pub mod state;

pub use contract::{
    execute, execute_goal_shot, execute_set_admin_percentage, execute_set_reward_percentage,
    execute_set_ticket_price, execute_shoot, instantiate, query,
};
pub use error::ContractError;
pub use state::{Config, GameState, ShootDeadlines};
