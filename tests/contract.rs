use longshot_jackpot::msg::{
    Coin, ConfigResponse, ContractBalanceResponse, ExecuteMsg, InstantiateMsg, MessageInfo,
    QueryMsg, QueryResponse, ShootDeadlineResponse,
};
use longshot_jackpot::response::{Attribute, Transfer};
use longshot_jackpot::{execute, instantiate, query, Config, GameState};

const BLOCK_TIME: u64 = 1_571_797_419;
const SHOOT_DURATION: u64 = 90;

fn attr(key: &str, value: &str) -> Attribute {
    Attribute { key: key.to_string(), value: value.to_string() }
}

fn info(sender: &str, funds: &[(u128, &str)]) -> MessageInfo {
    MessageInfo {
        sender: sender.to_string(),
        funds: funds
            .iter()
            .map(|(amount, denom)| Coin { denom: denom.to_string(), amount: *amount })
            .collect(),
    }
}

fn setup(owner: Option<&str>, main_denom: &str) -> GameState {
    let msg = InstantiateMsg { owner: owner.map(|o| o.to_string()), main_denom: main_denom.to_string() };
    let (state, res) = instantiate(&info("creator", &[]), msg, true);
    assert_eq!(0, res.messages.len());
    state
}

fn query_config(state: &GameState) -> ConfigResponse {
    match query(state, QueryMsg::QueryConfig {}, 0).unwrap() {
        QueryResponse::Config(c) => c,
        other => panic!("unexpected answer {:?}", other),
    }
}

fn query_deadline(state: &GameState, address: &str) -> u64 {
    let msg = QueryMsg::QueryShootDeadline { address: address.to_string() };
    match query(state, msg, 0).unwrap() {
        QueryResponse::ShootDeadline(ShootDeadlineResponse { shoot_deadline }) => shoot_deadline,
        other => panic!("unexpected answer {:?}", other),
    }
}

#[test]
fn contract_test_proper_initialization() {
    // no owner specified in the instantiation message
    let msg = InstantiateMsg { owner: None, main_denom: "usei".to_string() };
    let (state, res) = instantiate(&info("creator", &[]), msg, true);
    assert_eq!(0, res.messages.len());
    assert_eq!(
        state.config,
        Config {
            owner: "creator".to_string(),
            ticket_price: 0,
            reward_percentage: 80,
            admin_percentage: 4,
            shoot_duration: 90
        }
    );

    // specifying an owner address in the instantiation message
    let msg = InstantiateMsg {
        owner: Some("specified_owner".to_string()),
        main_denom: "usei".to_string(),
    };
    let (state, res) = instantiate(&info("creator", &[]), msg, true);
    assert_eq!(0, res.messages.len());
    assert_eq!(
        state.config,
        Config {
            owner: "specified_owner".to_string(),
            ticket_price: 0,
            reward_percentage: 80,
            admin_percentage: 4,
            shoot_duration: 90
        }
    );
}

#[test]
fn contract_test_set_ticket_price() {
    let mut state = setup(None, "usei");
    let msg = ExecuteMsg::SetTicketPrice { new_ticket_price: 100 };
    let res = execute(&mut state, &info("creator", &[]), BLOCK_TIME, 0, msg).unwrap();
    assert_eq!(
        res.attributes,
        vec![attr("method", "execute_set_ticket_price"), attr("new_ticket_price", "100")]
    );
    assert_eq!(
        ConfigResponse {
            owner: "creator".to_string(),
            ticket_price: 100,
            reward_percentage: 80,
            admin_percentage: 4,
            shoot_duration: 90
        },
        query_config(&state)
    );
}

#[test]
fn contract_test_set_percentage() {
    let mut state = setup(None, "usei");
    let msg = ExecuteMsg::SetRewardPercentage { new_reward_percentage: 90 };
    let res = execute(&mut state, &info("creator", &[]), BLOCK_TIME, 0, msg).unwrap();
    assert_eq!(
        res.attributes,
        vec![attr("method", "execute_set_reward_percentage"), attr("new_reward_percentage", "90")]
    );
    assert_eq!(
        ConfigResponse {
            owner: "creator".to_string(),
            ticket_price: 0,
            reward_percentage: 90,
            admin_percentage: 4,
            shoot_duration: 90
        },
        query_config(&state)
    );

    let msg = ExecuteMsg::SetAdminPercentage { new_admin_percentage: 10 };
    let res = execute(&mut state, &info("creator", &[]), BLOCK_TIME, 0, msg).unwrap();
    assert_eq!(
        res.attributes,
        vec![attr("method", "execute_set_admin_percentage"), attr("new_admin_percentage", "10")]
    );
    assert_eq!(
        ConfigResponse {
            owner: "creator".to_string(),
            ticket_price: 0,
            reward_percentage: 90,
            admin_percentage: 10,
            shoot_duration: 90
        },
        query_config(&state)
    );
}

#[test]
fn contract_test_shoot_for_free_twice_success() {
    let main_denom = "usei";
    let mut state = setup(None, main_denom);
    let ticket_price = state.config.ticket_price;
    let funds = info("creator", &[(ticket_price, main_denom)]);
    let res = execute(&mut state, &funds, BLOCK_TIME, 0, ExecuteMsg::Shoot {}).unwrap();
    assert_eq!(
        res.attributes,
        vec![
            attr("method", "execute_shoot"),
            attr("shoot_deadline", &(BLOCK_TIME + SHOOT_DURATION).to_string()),
            attr("timestamp", &BLOCK_TIME.to_string()),
        ]
    );
    assert_eq!(query_deadline(&state, "creator"), BLOCK_TIME + SHOOT_DURATION);
}

#[test]
fn contract_test_shoot_10ntrn_success() {
    let main_denom = "usei";
    let mut state = setup(Some("creator"), main_denom);

    let msg = ExecuteMsg::SetTicketPrice { new_ticket_price: 10 };
    let res = execute(&mut state, &info("creator", &[]), BLOCK_TIME, 1000, msg).unwrap();
    assert_eq!(
        res.attributes,
        vec![attr("method", "execute_set_ticket_price"), attr("new_ticket_price", "10")]
    );

    let ticket_price = state.config.ticket_price;
    let funds = info("player", &[(ticket_price, main_denom)]);
    let res = execute(&mut state, &funds, BLOCK_TIME, 1000, ExecuteMsg::Shoot {}).unwrap();
    assert_eq!(
        res.attributes,
        vec![
            attr("method", "execute_shoot"),
            attr("shoot_deadline", &(BLOCK_TIME + SHOOT_DURATION).to_string()),
            attr("timestamp", &BLOCK_TIME.to_string()),
        ]
    );
    assert_eq!(query_deadline(&state, "player"), BLOCK_TIME + SHOOT_DURATION);
}

#[test]
fn contract_test_shoot_10ntrn_and_goal_shot_success() {
    let main_denom = "usei";
    let pool: u128 = 100;
    let mut state = setup(Some("creator"), main_denom);

    let msg = ExecuteMsg::SetTicketPrice { new_ticket_price: 100 };
    let res = execute(&mut state, &info("creator", &[]), BLOCK_TIME, pool, msg).unwrap();
    assert_eq!(
        res.attributes,
        vec![attr("method", "execute_set_ticket_price"), attr("new_ticket_price", "100")]
    );

    let ticket_price = state.config.ticket_price;
    let funds = info("player", &[(ticket_price, main_denom)]);
    let res = execute(&mut state, &funds, BLOCK_TIME, pool, ExecuteMsg::Shoot {}).unwrap();
    assert_eq!(
        res.attributes,
        vec![
            attr("method", "execute_shoot"),
            attr("shoot_deadline", &(BLOCK_TIME + SHOOT_DURATION).to_string()),
            attr("timestamp", &BLOCK_TIME.to_string()),
        ]
    );
    assert_eq!(query_deadline(&state, "player"), BLOCK_TIME + SHOOT_DURATION);

    let now = BLOCK_TIME + 50;

    // the reward should be 80% of the contract balance
    let contract_balance = match query(&state, QueryMsg::QueryBalance {}, pool).unwrap() {
        QueryResponse::Balance(ContractBalanceResponse { amount }) => amount,
        other => panic!("unexpected answer {:?}", other),
    };
    let reward_amount = contract_balance * 80 / 100;
    let admin_amount = contract_balance * 4 / 100;

    let msg = ExecuteMsg::GoalShot { player_address: "player".to_string() };
    let res = execute(&mut state, &info("creator", &[]), now, pool, msg).unwrap();
    assert_eq!(
        res.attributes,
        vec![
            attr("method", "goal_shot"),
            attr("pre_balance", &contract_balance.to_string()),
            attr("reward_transfer_to_admin", &admin_amount.to_string()),
            attr("reward_transfer", &reward_amount.to_string()),
        ]
    );
    assert_eq!(
        res.messages,
        vec![
            Transfer { recipient: "creator".to_string(), denom: "usei".to_string(), amount: 4 },
            Transfer { recipient: "player".to_string(), denom: "usei".to_string(), amount: 80 },
        ]
    );
}
