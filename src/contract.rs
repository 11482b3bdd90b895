use vstd::prelude::*;
use crate::error::ContractError;
use crate::msg::{
    Coin, ConfigResponse, ContractBalanceResponse, ExecuteMsg, InstantiateMsg, MessageInfo,
    QueryMsg, QueryResponse, ShootDeadlineResponse,
};
use crate::response::{attr, decimal, decimal_string, Attribute, Response};
use crate::settlement::{checked_share, payout_messages, payout_transfers, settle, share_of};
use crate::state::{Config, GameState, ShootDeadlines};

verus! {

/// Seconds a player stays eligible after a successful shot.
pub const SHOOT_DURATION: u8 = 90;

/// Percentage of the pool a goal pays to the player, until the owner changes it.
pub const DEFAULT_REWARD_PERCENTAGE: u8 = 80;

/// Percentage of the pool a goal pays to the owner, until the owner changes it.
pub const DEFAULT_ADMIN_PERCENTAGE: u8 = 4;

/// The owner a new contract gets: the requested one when there is one and the
/// host accepted it as an address, else the creator.
pub open spec fn initial_owner(info: MessageInfo, msg: InstantiateMsg, owner_accepted: bool) -> String {
    if msg.owner is Some && owner_accepted {
        msg.owner.unwrap()
    } else {
        info.sender
    }
}

/// Creates the contract's state. `owner_accepted` tells whether the host's
/// address check accepted `msg.owner`; it does not matter when that is `None`.
pub fn instantiate(info: &MessageInfo, msg: InstantiateMsg, owner_accepted: bool) -> (r: (
    GameState,
    Response,
))
    ensures
        r.0.wf(),
        r.0.config.owner == initial_owner(*info, msg, owner_accepted),
        r.0.config.ticket_price == 0,
        r.0.config.reward_percentage == DEFAULT_REWARD_PERCENTAGE,
        r.0.config.admin_percentage == DEFAULT_ADMIN_PERCENTAGE,
        r.0.config.shoot_duration == SHOOT_DURATION,
        r.0.main_denom == msg.main_denom,
        r.0.deadlines.view() == Map::<Seq<char>, u64>::empty(),
        r.1.attrs() == seq![
            ("method"@, "instantiate"@),
            ("owner"@, r.0.config.owner@),
            ("main_denom"@, msg.main_denom@),
        ],
        r.1.transfers().len() == 0,
{
    let owner = match msg.owner {
        Some(o) => if owner_accepted {
            o
        } else {
            info.sender.clone()
        },
        None => info.sender.clone(),
    };
    let main_denom = msg.main_denom;
    let mut attributes: Vec<Attribute> = Vec::new();
    attributes.push(attr("method", "instantiate".to_owned()));
    attributes.push(attr("owner", owner.clone()));
    attributes.push(attr("main_denom", main_denom.clone()));
    let config = Config {
        owner,
        ticket_price: 0,
        reward_percentage: DEFAULT_REWARD_PERCENTAGE,
        admin_percentage: DEFAULT_ADMIN_PERCENTAGE,
        shoot_duration: SHOOT_DURATION,
    };
    let state = GameState { config, main_denom, deadlines: ShootDeadlines::new() };
    let res = Response { attributes, messages: Vec::new() };
    proof {
        assert(res.attrs() =~= seq![
            ("method"@, "instantiate"@),
            ("owner"@, state.config.owner@),
            ("main_denom"@, state.main_denom@),
        ]);
    }
    (state, res)
}

/// The guard of every owner-only operation: the caller must be the configured owner.
pub fn ensure_owner(config: &Config, sender: &String) -> (r: Result<(), ContractError>)
    ensures
        r == (if sender@ == config.owner@ {
            Ok(())
        } else {
            Err(ContractError::Unauthorized)
        }),
{
    if *sender == config.owner {
        Ok(())
    } else {
        Err(ContractError::Unauthorized)
    }
}

/// What the payment check decides: no coin is `InvalidFund`; a first coin that
/// is not exactly `price` of `denom` is `InvalidPriceIndex0`, which repeats the
/// expected and the actual denomination and amount; a correct ticket with other
/// coins beside it is `InvalidFund`, the ticket having to be the sole payment.
pub open spec fn payment_check(funds: Seq<Coin>, denom: String, price: u128) -> Result<(), ContractError> {
    if funds.len() == 0 {
        Err(ContractError::InvalidFund)
    } else if !(funds[0].denom@ == denom@ && funds[0].amount == price) {
        Err(
            ContractError::InvalidPriceIndex0 {
                expected_amount: price,
                expected_denom: denom,
                actual_amount: funds[0].amount,
                actual_denom: funds[0].denom,
            },
        )
    } else if funds.len() > 1 {
        Err(ContractError::InvalidFund)
    } else {
        Ok(())
    }
}

/// Checks that `funds` is the ticket price in the contract's denomination, as the sole payment.
pub fn check_payment(funds: &Vec<Coin>, main_denom: &String, ticket_price: u128) -> (r: Result<
    (),
    ContractError,
>)
    ensures
        r == payment_check(funds@, *main_denom, ticket_price),
{
    if funds.len() == 0 {
        return Err(ContractError::InvalidFund);
    }
    let coin = &funds[0];
    if !(coin.denom == *main_denom && coin.amount == ticket_price) {
        return Err(
            ContractError::InvalidPriceIndex0 {
                expected_amount: ticket_price,
                expected_denom: main_denom.clone(),
                actual_amount: coin.amount,
                actual_denom: coin.denom.clone(),
            },
        );
    }
    if funds.len() > 1 {
        return Err(ContractError::InvalidFund);
    }
    Ok(())
}

/// The deadline a shot at `now` sets.
pub open spec fn shoot_deadline(now: u64, config: Config) -> int {
    now + config.shoot_duration
}

/// What a shot does: on a valid payment the caller's deadline becomes
/// `now + shoot_duration`, whatever it was, and nothing else changes;
/// otherwise the payment error comes back and nothing changes at all.
pub open spec fn shoot_post(
    pre: GameState,
    post: GameState,
    info: MessageInfo,
    now: u64,
    r: Result<Response, ContractError>,
) -> bool {
    let deadline = shoot_deadline(now, pre.config);
    match payment_check(info.funds@, pre.main_denom, pre.config.ticket_price) {
        Err(e) => r == Err::<Response, ContractError>(e) && post == pre,
        Ok(_) => {
            &&& r is Ok
            &&& post.config == pre.config
            &&& post.main_denom == pre.main_denom
            &&& post.deadlines.view() == pre.deadlines.view().insert(info.sender@, deadline as u64)
            &&& r->Ok_0.attrs() == seq![
                ("method"@, "execute_shoot"@),
                ("shoot_deadline"@, decimal(deadline as nat)),
                ("timestamp"@, decimal(now as nat)),
            ]
            &&& r->Ok_0.transfers().len() == 0
        },
    }
}

/// Whether a shot at `now` can record its deadline: `now + shoot_duration` fits in a `u64`.
pub fn shoot_deadline_fits(config: &Config, now: u64) -> (r: bool)
    ensures
        r == (shoot_deadline(now, *config) <= u64::MAX),
{
    now <= u64::MAX - config.shoot_duration as u64
}

/// A player pays the ticket price and may be scored on until `now + shoot_duration`.
/// Shooting again while still eligible is allowed and starts a new window.
pub fn execute_shoot(state: &mut GameState, info: &MessageInfo, now: u64) -> (r: Result<
    Response,
    ContractError,
>)
    requires
        old(state).wf(),
        payment_check(info.funds@, old(state).main_denom, old(state).config.ticket_price) is Ok
            ==> shoot_deadline(now, old(state).config) <= u64::MAX,
    ensures
        final(state).wf(),
        shoot_post(*old(state), *final(state), *info, now, r),
{
    match check_payment(&info.funds, &state.main_denom, state.config.ticket_price) {
        Err(e) => {
            return Err(e);
        },
        Ok(()) => {},
    }
    let deadline = now + state.config.shoot_duration as u64;
    state.deadlines.record_shoot(info.sender.clone(), deadline);
    let mut attributes: Vec<Attribute> = Vec::new();
    attributes.push(attr("method", "execute_shoot".to_owned()));
    attributes.push(attr("shoot_deadline", decimal_string(deadline as u128)));
    attributes.push(attr("timestamp", decimal_string(now as u128)));
    let res = Response { attributes, messages: Vec::new() };
    proof {
        assert(res.attrs() =~= seq![
            ("method"@, "execute_shoot"@),
            ("shoot_deadline"@, decimal(deadline as nat)),
            ("timestamp"@, decimal(now as nat)),
        ]);
    }
    Ok(res)
}

/// The attributes of a goal: the pool balance it was computed against, then
/// each payout that is not zero.
pub open spec fn goal_attrs(pool_balance: nat, reward: nat, admin: nat) -> Seq<(Seq<char>, Seq<char>)> {
    seq![("method"@, "goal_shot"@), ("pre_balance"@, decimal(pool_balance))] + (if admin > 0 {
        seq![("reward_transfer_to_admin"@, decimal(admin))]
    } else {
        Seq::empty()
    }) + (if reward > 0 {
        seq![("reward_transfer"@, decimal(reward))]
    } else {
        Seq::empty()
    })
}

/// What decides whether a goal is accepted, in this order: the caller must be
/// the owner, the player must have shot, and the player's window must still be
/// open (`now < deadline`).
pub open spec fn goal_check(state: GameState, info: MessageInfo, now: u64, player: String) -> Result<
    (),
    ContractError,
> {
    let deadlines = state.deadlines.view();
    if info.sender@ != state.config.owner@ {
        Err(ContractError::Unauthorized)
    } else if !deadlines.contains_key(player@) {
        Err(ContractError::PlayerNotJoined)
    } else if now >= deadlines[player@] {
        Err(ContractError::ShootDeadlinePassed)
    } else {
        Ok(())
    }
}

/// Decides whether a goal by `player` at `now` is accepted, before any payout is computed.
pub fn check_goal_shot(state: &GameState, info: &MessageInfo, now: u64, player: &String) -> (r: Result<
    (),
    ContractError,
>)
    requires
        state.wf(),
    ensures
        r == goal_check(*state, *info, now, *player),
{
    ensure_owner(&state.config, &info.sender)?;
    match state.deadlines.lookup(player) {
        Some(deadline) => if now >= deadline {
            Err(ContractError::ShootDeadlinePassed)
        } else {
            Ok(())
        },
        None => Err(ContractError::PlayerNotJoined),
    }
}

/// What a goal does. A rejected goal returns the error of `goal_check`. An
/// accepted one pays `floor(pool * reward% / 100)` to the player and
/// `floor(pool * admin% / 100)` to the owner, leaving out a zero payout, and
/// leaves the player's deadline as it is.
pub open spec fn goal_shot_post(
    state: GameState,
    info: MessageInfo,
    now: u64,
    player: String,
    pool_balance: u128,
    r: Result<Response, ContractError>,
) -> bool {
    match goal_check(state, info, now, player) {
        Err(e) => r == Err::<Response, ContractError>(e),
        Ok(_) => {
            let reward = share_of(pool_balance as nat, state.config.reward_percentage as nat);
            let admin = share_of(pool_balance as nat, state.config.admin_percentage as nat);
            &&& r is Ok
            &&& r->Ok_0.attrs() == goal_attrs(pool_balance as nat, reward, admin)
            &&& r->Ok_0.transfers() == payout_transfers(
                state.config.owner@,
                player@,
                state.main_denom@,
                reward,
                admin,
            )
        },
    }
}

/// The payouts a goal may compute fit in a `u128`; always so for percentages up to a hundred.
pub open spec fn payouts_fit(config: Config, pool_balance: u128) -> bool {
    &&& share_of(pool_balance as nat, config.reward_percentage as nat) <= u128::MAX
    &&& share_of(pool_balance as nat, config.admin_percentage as nat) <= u128::MAX
}

/// Whether a goal against `pool_balance` can be settled: both payouts fit in a `u128`.
pub fn can_settle(config: &Config, pool_balance: u128) -> (r: bool)
    ensures
        r == payouts_fit(*config, pool_balance),
{
    checked_share(pool_balance, config.reward_percentage).is_some() && checked_share(
        pool_balance,
        config.admin_percentage,
    ).is_some()
}

/// The owner declares a goal by `player_address`, paying out of the pool's
/// current balance `pool_balance`.
pub fn execute_goal_shot(
    state: &GameState,
    info: &MessageInfo,
    now: u64,
    player_address: String,
    pool_balance: u128,
) -> (r: Result<Response, ContractError>)
    requires
        state.wf(),
        goal_check(*state, *info, now, player_address) is Ok ==> payouts_fit(
            state.config,
            pool_balance,
        ),
    ensures
        goal_shot_post(*state, *info, now, player_address, pool_balance, r),
{
    check_goal_shot(state, info, now, &player_address)?;
    let s = settle(pool_balance, state.config.reward_percentage, state.config.admin_percentage);
    let mut attributes: Vec<Attribute> = Vec::new();
    attributes.push(attr("method", "goal_shot".to_owned()));
    attributes.push(attr("pre_balance", decimal_string(pool_balance)));
    if s.admin_amount > 0 {
        attributes.push(attr("reward_transfer_to_admin", decimal_string(s.admin_amount)));
    }
    if s.reward_amount > 0 {
        attributes.push(attr("reward_transfer", decimal_string(s.reward_amount)));
    }
    let messages = payout_messages(&s, &state.config.owner, &player_address, &state.main_denom);
    let res = Response { attributes, messages };
    proof {
        assert(res.attrs() =~= goal_attrs(
            pool_balance as nat,
            s.reward_amount as nat,
            s.admin_amount as nat,
        ));
    }
    Ok(res)
}

/// What an owner-only update of the configuration does: for the owner, the
/// configuration becomes `updated` and the pair (`key`, new value) is reported;
/// for anyone else, `Unauthorized` and no change.
pub open spec fn config_update_post(
    pre: GameState,
    post: GameState,
    info: MessageInfo,
    r: Result<Response, ContractError>,
    updated: Config,
    method: Seq<char>,
    key: Seq<char>,
    value: nat,
) -> bool {
    if info.sender@ == pre.config.owner@ {
        &&& r is Ok
        &&& post == (GameState { config: updated, ..pre })
        &&& r->Ok_0.attrs() == seq![("method"@, method), (key, decimal(value))]
        &&& r->Ok_0.transfers().len() == 0
    } else {
        r == Err::<Response, ContractError>(ContractError::Unauthorized) && post == pre
    }
}

/// A response that reports an update: the method's name and the new value.
fn update_response(method: &str, key: &str, value: u128) -> (r: Response)
    ensures
        r.attrs() == seq![("method"@, method@), (key@, decimal(value as nat))],
        r.transfers().len() == 0,
{
    let mut attributes: Vec<Attribute> = Vec::new();
    attributes.push(attr("method", method.to_owned()));
    attributes.push(attr(key, decimal_string(value)));
    let res = Response { attributes, messages: Vec::new() };
    proof {
        assert(res.attrs() =~= seq![("method"@, method@), (key@, decimal(value as nat))]);
    }
    res
}

/// The owner changes the percentage of the pool that a goal pays to the owner.
/// Any value is taken: nothing bounds it, nor its sum with the reward percentage.
pub fn execute_set_admin_percentage(
    state: &mut GameState,
    info: &MessageInfo,
    new_admin_percentage: u8,
) -> (r: Result<Response, ContractError>)
    ensures
        config_update_post(
            *old(state),
            *final(state),
            *info,
            r,
            (Config { admin_percentage: new_admin_percentage, ..old(state).config }),
            "execute_set_admin_percentage"@,
            "new_admin_percentage"@,
            new_admin_percentage as nat,
        ),
{
    ensure_owner(&state.config, &info.sender)?;
    state.config.admin_percentage = new_admin_percentage;
    Ok(
        update_response(
            "execute_set_admin_percentage",
            "new_admin_percentage",
            new_admin_percentage as u128,
        ),
    )
}

/// The owner changes the percentage of the pool that a goal pays to the player.
/// Any value is taken: nothing bounds it, nor its sum with the admin percentage.
pub fn execute_set_reward_percentage(
    state: &mut GameState,
    info: &MessageInfo,
    new_reward_percentage: u8,
) -> (r: Result<Response, ContractError>)
    ensures
        config_update_post(
            *old(state),
            *final(state),
            *info,
            r,
            (Config { reward_percentage: new_reward_percentage, ..old(state).config }),
            "execute_set_reward_percentage"@,
            "new_reward_percentage"@,
            new_reward_percentage as nat,
        ),
{
    ensure_owner(&state.config, &info.sender)?;
    state.config.reward_percentage = new_reward_percentage;
    Ok(
        update_response(
            "execute_set_reward_percentage",
            "new_reward_percentage",
            new_reward_percentage as u128,
        ),
    )
}

/// The owner changes the ticket price.
pub fn execute_set_ticket_price(
    state: &mut GameState,
    info: &MessageInfo,
    new_ticket_price: u128,
) -> (r: Result<Response, ContractError>)
    ensures
        config_update_post(
            *old(state),
            *final(state),
            *info,
            r,
            (Config { ticket_price: new_ticket_price, ..old(state).config }),
            "execute_set_ticket_price"@,
            "new_ticket_price"@,
            new_ticket_price as nat,
        ),
{
    ensure_owner(&state.config, &info.sender)?;
    state.config.ticket_price = new_ticket_price;
    Ok(update_response("execute_set_ticket_price", "new_ticket_price", new_ticket_price))
}

/// Runs one operation against the contract's state. `now` is the block time in
/// seconds and `pool_balance` the contract's holdings in its denomination.
/// A goal leaves the state as it is.
pub fn execute(
    state: &mut GameState,
    info: &MessageInfo,
    now: u64,
    pool_balance: u128,
    msg: ExecuteMsg,
) -> (r: Result<Response, ContractError>)
    requires
        old(state).wf(),
        msg is Shoot && payment_check(
            info.funds@,
            old(state).main_denom,
            old(state).config.ticket_price,
        ) is Ok ==> shoot_deadline(now, old(state).config) <= u64::MAX,
        msg matches ExecuteMsg::GoalShot { player_address } ==> (goal_check(
            *old(state),
            *info,
            now,
            player_address,
        ) is Ok ==> payouts_fit(old(state).config, pool_balance)),
    ensures
        final(state).wf(),
        match msg {
            ExecuteMsg::Shoot {  } => shoot_post(*old(state), *final(state), *info, now, r),
            ExecuteMsg::GoalShot { player_address } => {
                &&& *final(state) == *old(state)
                &&& goal_shot_post(*old(state), *info, now, player_address, pool_balance, r)
            },
            ExecuteMsg::SetTicketPrice { new_ticket_price } => config_update_post(
                *old(state),
                *final(state),
                *info,
                r,
                (Config { ticket_price: new_ticket_price, ..old(state).config }),
                "execute_set_ticket_price"@,
                "new_ticket_price"@,
                new_ticket_price as nat,
            ),
            ExecuteMsg::SetRewardPercentage { new_reward_percentage } => config_update_post(
                *old(state),
                *final(state),
                *info,
                r,
                (Config { reward_percentage: new_reward_percentage, ..old(state).config }),
                "execute_set_reward_percentage"@,
                "new_reward_percentage"@,
                new_reward_percentage as nat,
            ),
            ExecuteMsg::SetAdminPercentage { new_admin_percentage } => config_update_post(
                *old(state),
                *final(state),
                *info,
                r,
                (Config { admin_percentage: new_admin_percentage, ..old(state).config }),
                "execute_set_admin_percentage"@,
                "new_admin_percentage"@,
                new_admin_percentage as nat,
            ),
        },
{
    match msg {
        ExecuteMsg::SetTicketPrice { new_ticket_price } => {
            execute_set_ticket_price(state, info, new_ticket_price)
        },
        ExecuteMsg::SetRewardPercentage { new_reward_percentage } => {
            execute_set_reward_percentage(state, info, new_reward_percentage)
        },
        ExecuteMsg::SetAdminPercentage { new_admin_percentage } => {
            execute_set_admin_percentage(state, info, new_admin_percentage)
        },
        ExecuteMsg::Shoot {  } => execute_shoot(state, info, now),
        ExecuteMsg::GoalShot { player_address } => {
            execute_goal_shot(state, info, now, player_address, pool_balance)
        },
    }
}

/// The configuration as it stands.
pub fn query_config(state: &GameState) -> (r: ConfigResponse)
    ensures
        r == (ConfigResponse {
            owner: state.config.owner,
            ticket_price: state.config.ticket_price,
            reward_percentage: state.config.reward_percentage,
            admin_percentage: state.config.admin_percentage,
            shoot_duration: state.config.shoot_duration,
        }),
{
    ConfigResponse {
        owner: state.config.owner.clone(),
        ticket_price: state.config.ticket_price,
        reward_percentage: state.config.reward_percentage,
        admin_percentage: state.config.admin_percentage,
        shoot_duration: state.config.shoot_duration,
    }
}

/// The deadline recorded for `address`, expired or not; `PlayerNotJoined` if it never shot.
pub fn query_shoot_deadline(state: &GameState, address: &String) -> (r: Result<
    ShootDeadlineResponse,
    ContractError,
>)
    requires
        state.wf(),
    ensures
        r == (if state.deadlines.view().contains_key(address@) {
            Ok(ShootDeadlineResponse { shoot_deadline: state.deadlines.view()[address@] })
        } else {
            Err(ContractError::PlayerNotJoined)
        }),
{
    match state.deadlines.lookup(address) {
        Some(shoot_deadline) => Ok(ShootDeadlineResponse { shoot_deadline }),
        None => Err(ContractError::PlayerNotJoined),
    }
}

/// The pool: the contract's holdings in its denomination, as the host reports them.
pub fn query_balance(pool_balance: u128) -> (r: ContractBalanceResponse)
    ensures
        r.amount == pool_balance,
{
    ContractBalanceResponse { amount: pool_balance }
}

/// Answers one query. `pool_balance` is the contract's holdings in its denomination.
pub fn query(state: &GameState, msg: QueryMsg, pool_balance: u128) -> (r: Result<
    QueryResponse,
    ContractError,
>)
    requires
        state.wf(),
    ensures
        match msg {
            QueryMsg::QueryConfig {  } => r == Ok::<QueryResponse, ContractError>(
                QueryResponse::Config(
                    ConfigResponse {
                        owner: state.config.owner,
                        ticket_price: state.config.ticket_price,
                        reward_percentage: state.config.reward_percentage,
                        admin_percentage: state.config.admin_percentage,
                        shoot_duration: state.config.shoot_duration,
                    },
                ),
            ),
            QueryMsg::QueryShootDeadline { address } => if state.deadlines.view().contains_key(
                address@,
            ) {
                r == Ok::<QueryResponse, ContractError>(
                    QueryResponse::ShootDeadline(
                        ShootDeadlineResponse { shoot_deadline: state.deadlines.view()[address@] },
                    ),
                )
            } else {
                r == Err::<QueryResponse, ContractError>(ContractError::PlayerNotJoined)
            },
            QueryMsg::QueryBalance {  } => r == Ok::<QueryResponse, ContractError>(
                QueryResponse::Balance(ContractBalanceResponse { amount: pool_balance }),
            ),
        },
{
    match msg {
        QueryMsg::QueryConfig {  } => Ok(QueryResponse::Config(query_config(state))),
        QueryMsg::QueryShootDeadline { address } => {
            let d = query_shoot_deadline(state, &address)?;
            Ok(QueryResponse::ShootDeadline(d))
        },
        QueryMsg::QueryBalance {  } => Ok(QueryResponse::Balance(query_balance(pool_balance))),
    }
}

} // verus!
