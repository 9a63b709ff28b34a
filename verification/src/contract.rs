use vstd::prelude::*;

use crate::addr::{addr_validate, valid_addr, Addr};
use crate::error::ContractError;
use crate::msg::{ExecuteMsg, InstantiateMsg, MessageInfo, QueryMsg};
use crate::numeral::{dec_str, u128_to_dec, u64_to_dec};
use crate::response::Response;
use crate::state::{zero_metrics, Config, ConfigView, ContractState, StateView, UserMetrics};

verus! {

/// What a call's outcome reduces to: the attribute pairs on success, the
/// error kind on failure.
pub open spec fn response_view(r: Result<Response, ContractError>) -> Result<
    Seq<(Seq<char>, Seq<char>)>,
    ContractError,
> {
    match r {
        Ok(resp) => Ok(resp@),
        Err(e) => Err(e),
    }
}

/// The record the store yields for a user on a write path: the stored
/// record, or the all-zero record if the user has none yet.
pub open spec fn metrics_or_default(s: StateView, user: Seq<char>) -> UserMetrics {
    if s.users.contains_key(user) {
        s.users[user]
    } else {
        zero_metrics()
    }
}

/// `m` with only `liquidity` overwritten.
pub open spec fn with_liquidity(m: UserMetrics, liquidity: u128) -> UserMetrics {
    UserMetrics {
        liquidity,
        transaction_count: m.transaction_count,
        assets_held: m.assets_held,
        protocol_usage_count: m.protocol_usage_count,
        credit_score: m.credit_score,
    }
}

/// `m` with only `transaction_count` overwritten.
pub open spec fn with_transaction_count(m: UserMetrics, transaction_count: u64) -> UserMetrics {
    UserMetrics {
        liquidity: m.liquidity,
        transaction_count,
        assets_held: m.assets_held,
        protocol_usage_count: m.protocol_usage_count,
        credit_score: m.credit_score,
    }
}

/// `m` with only `assets_held` overwritten.
pub open spec fn with_assets_held(m: UserMetrics, assets_held: u128) -> UserMetrics {
    UserMetrics {
        liquidity: m.liquidity,
        transaction_count: m.transaction_count,
        assets_held,
        protocol_usage_count: m.protocol_usage_count,
        credit_score: m.credit_score,
    }
}

/// `m` with only `protocol_usage_count` overwritten.
pub open spec fn with_protocol_usage(m: UserMetrics, protocol_usage_count: u64) -> UserMetrics {
    UserMetrics {
        liquidity: m.liquidity,
        transaction_count: m.transaction_count,
        assets_held: m.assets_held,
        protocol_usage_count,
        credit_score: m.credit_score,
    }
}

/// `m` with only `credit_score` overwritten.
pub open spec fn with_credit_score(m: UserMetrics, credit_score: u64) -> UserMetrics {
    UserMetrics {
        liquidity: m.liquidity,
        transaction_count: m.transaction_count,
        assets_held: m.assets_held,
        protocol_usage_count: m.protocol_usage_count,
        credit_score,
    }
}

/// The score formula over unbounded integers: the base score plus one point
/// per thousand units of liquidity, one per thousand of assets held, one per
/// transaction and one per protocol interaction.
pub open spec fn score_of(base_score: u64, m: UserMetrics) -> int {
    base_score + m.liquidity / 1000 + m.assets_held / 1000 + m.transaction_count
        + m.protocol_usage_count
}

/// What instantiation does to the stores and returns: with a well-formed
/// admin identity it writes the config record and acknowledges; otherwise it
/// changes nothing and fails with `InvalidAddress`.
pub open spec fn instantiate_step(s: StateView, admin: Seq<char>, base_score: u64) -> (
    StateView,
    Result<Seq<(Seq<char>, Seq<char>)>, ContractError>,
) {
    if valid_addr(admin) {
        (
            StateView { config: Some(ConfigView { admin, base_score }), users: s.users },
            Ok(seq![("method"@, "instantiate"@)]),
        )
    } else {
        (s, Err(ContractError::InvalidAddress))
    }
}

/// The shared shape of the four field updates: with no config record the
/// call fails with `NotFound`; a caller other than the admin is rejected
/// with `Unauthorized`; otherwise the user's record, defaulted to all-zero
/// if absent, is stored with the one field overwritten. `updated` is that
/// overwritten record and `attrs` the acknowledgement; on any failure the
/// stores are unchanged.
pub open spec fn update_field_step(
    s: StateView,
    sender: Seq<char>,
    user: Seq<char>,
    updated: UserMetrics,
    attrs: Seq<(Seq<char>, Seq<char>)>,
) -> (StateView, Result<Seq<(Seq<char>, Seq<char>)>, ContractError>) {
    match s.config {
        None => (s, Err(ContractError::NotFound)),
        Some(cfg) => if sender != cfg.admin {
            (s, Err(ContractError::Unauthorized))
        } else {
            (StateView { config: s.config, users: s.users.insert(user, updated) }, Ok(attrs))
        },
    }
}

/// One `UpdateLiquidity` step on the state model.
pub open spec fn update_liquidity_step(
    s: StateView,
    sender: Seq<char>,
    user: Seq<char>,
    liquidity: u128,
) -> (StateView, Result<Seq<(Seq<char>, Seq<char>)>, ContractError>) {
    update_field_step(
        s,
        sender,
        user,
        with_liquidity(metrics_or_default(s, user), liquidity),
        seq![
            ("method"@, "update_liquidity"@),
            ("user"@, user),
            ("liquidity"@, dec_str(liquidity as int)),
        ],
    )
}

/// One `UpdateTransactionCount` step on the state model.
pub open spec fn update_transaction_count_step(
    s: StateView,
    sender: Seq<char>,
    user: Seq<char>,
    transaction_count: u64,
) -> (StateView, Result<Seq<(Seq<char>, Seq<char>)>, ContractError>) {
    update_field_step(
        s,
        sender,
        user,
        with_transaction_count(metrics_or_default(s, user), transaction_count),
        seq![
            ("method"@, "update_transaction_count"@),
            ("user"@, user),
            ("transaction_count"@, dec_str(transaction_count as int)),
        ],
    )
}

/// One `UpdateAssetsHeld` step on the state model.
pub open spec fn update_assets_held_step(
    s: StateView,
    sender: Seq<char>,
    user: Seq<char>,
    assets_held: u128,
) -> (StateView, Result<Seq<(Seq<char>, Seq<char>)>, ContractError>) {
    update_field_step(
        s,
        sender,
        user,
        with_assets_held(metrics_or_default(s, user), assets_held),
        seq![
            ("method"@, "update_assets_held"@),
            ("user"@, user),
            ("assets_held"@, dec_str(assets_held as int)),
        ],
    )
}

/// One `UpdateProtocolUsage` step on the state model.
pub open spec fn update_protocol_usage_step(
    s: StateView,
    sender: Seq<char>,
    user: Seq<char>,
    protocol_usage_count: u64,
) -> (StateView, Result<Seq<(Seq<char>, Seq<char>)>, ContractError>) {
    update_field_step(
        s,
        sender,
        user,
        with_protocol_usage(metrics_or_default(s, user), protocol_usage_count),
        seq![
            ("method"@, "update_protocol_usage"@),
            ("user"@, user),
            ("protocol_usage_count"@, dec_str(protocol_usage_count as int)),
        ],
    )
}

/// One `CalculateScore` step on the state model: with no config record the
/// call fails with `NotFound`; a formula result beyond the 64-bit range
/// fails with `ArithmeticOverflow` and changes nothing; otherwise only the
/// user's `credit_score` is overwritten with the formula result. No caller
/// restriction: recomputation is public.
pub open spec fn calculate_score_step(s: StateView, user: Seq<char>) -> (
    StateView,
    Result<Seq<(Seq<char>, Seq<char>)>, ContractError>,
) {
    match s.config {
        None => (s, Err(ContractError::NotFound)),
        Some(cfg) => {
            let m = metrics_or_default(s, user);
            let score = score_of(cfg.base_score, m);
            if score > u64::MAX {
                (s, Err(ContractError::ArithmeticOverflow))
            } else {
                (
                    StateView {
                        config: s.config,
                        users: s.users.insert(user, with_credit_score(m, score as u64)),
                    },
                    Ok(
                        seq![
                            ("method"@, "calculate_score"@),
                            ("user"@, user),
                            ("score"@, dec_str(score)),
                        ],
                    ),
                )
            }
        },
    }
}

/// One mutating step on the state model, dispatched by message tag.
pub open spec fn execute_step(s: StateView, sender: Seq<char>, msg: ExecuteMsg) -> (
    StateView,
    Result<Seq<(Seq<char>, Seq<char>)>, ContractError>,
) {
    match msg {
        ExecuteMsg::UpdateLiquidity { user, liquidity } => update_liquidity_step(
            s,
            sender,
            user@,
            liquidity,
        ),
        ExecuteMsg::UpdateTransactionCount { user, transaction_count } => update_transaction_count_step(
            s,
            sender,
            user@,
            transaction_count,
        ),
        ExecuteMsg::UpdateAssetsHeld { user, assets_held } => update_assets_held_step(
            s,
            sender,
            user@,
            assets_held,
        ),
        ExecuteMsg::UpdateProtocolUsage { user, protocol_usage_count } => update_protocol_usage_step(
            s,
            sender,
            user@,
            protocol_usage_count,
        ),
        ExecuteMsg::CalculateScore { user } => calculate_score_step(s, user@),
    }
}

/// One read step on the state model: the stored record of the user, or
/// `NotFound` for a user that has never had an update or calculation.
pub open spec fn query_step(s: StateView, user: Seq<char>) -> Result<UserMetrics, ContractError> {
    if s.users.contains_key(user) {
        Ok(s.users[user])
    } else {
        Err(ContractError::NotFound)
    }
}

/// Creates the contract instance: validates the admin identity against the
/// addressing scheme and persists the config record. A malformed admin
/// string fails with `InvalidAddress` and writes nothing.
pub fn instantiate(state: &mut ContractState, msg: InstantiateMsg) -> (r: Result<
    Response,
    ContractError,
>)
    requires
        old(state).wf(),
    ensures
        final(state).wf(),
        r is Err ==> *final(state) == *old(state),
        final(state)@ == instantiate_step(old(state)@, msg.admin@, msg.base_score).0,
        response_view(r) == instantiate_step(old(state)@, msg.admin@, msg.base_score).1,
{
    match addr_validate(msg.admin.as_str()) {
        Ok(admin) => {
            state.save_config(Config { admin, base_score: msg.base_score });
            let resp = Response::new().add_attribute("method", "instantiate".to_owned());
            proof {
                assert(resp@ =~= seq![("method"@, "instantiate"@)]);
                assert(state@ =~= instantiate_step(old(state)@, msg.admin@, msg.base_score).0);
            }
            Ok(resp)
        },
        Err(e) => Err(e),
    }
}

/// Overwrites the target user's liquidity; admin only.
pub fn update_liquidity(
    state: &mut ContractState,
    info: MessageInfo,
    user: Addr,
    liquidity: u128,
) -> (r: Result<Response, ContractError>)
    requires
        old(state).wf(),
    ensures
        final(state).wf(),
        r is Err ==> *final(state) == *old(state),
        final(state)@ == update_liquidity_step(old(state)@, info.sender@, user@, liquidity).0,
        response_view(r) == update_liquidity_step(old(state)@, info.sender@, user@, liquidity).1,
{
    let config = match state.load_config() {
        Some(c) => c,
        None => {
            return Err(ContractError::NotFound);
        },
    };
    if info.sender != config.admin {
        return Err(ContractError::Unauthorized);
    }
    let mut metrics = match state.may_load_user(&user) {
        Some(m) => m,
        None => UserMetrics::default(),
    };
    metrics.liquidity = liquidity;
    state.save_user(&user, metrics);
    let resp = Response::new()
        .add_attribute("method", "update_liquidity".to_owned())
        .add_attribute("user", user.to_text())
        .add_attribute("liquidity", u128_to_dec(liquidity));
    proof {
        assert(resp@ =~= seq![
            ("method"@, "update_liquidity"@),
            ("user"@, user@),
            ("liquidity"@, dec_str(liquidity as int)),
        ]);
        assert(state@ =~= update_liquidity_step(old(state)@, info.sender@, user@, liquidity).0);
    }
    Ok(resp)
}

/// Overwrites the target user's transaction count; admin only.
pub fn update_transaction_count(
    state: &mut ContractState,
    info: MessageInfo,
    user: Addr,
    transaction_count: u64,
) -> (r: Result<Response, ContractError>)
    requires
        old(state).wf(),
    ensures
        final(state).wf(),
        r is Err ==> *final(state) == *old(state),
        final(state)@ == update_transaction_count_step(
            old(state)@,
            info.sender@,
            user@,
            transaction_count,
        ).0,
        response_view(r) == update_transaction_count_step(
            old(state)@,
            info.sender@,
            user@,
            transaction_count,
        ).1,
{
    let config = match state.load_config() {
        Some(c) => c,
        None => {
            return Err(ContractError::NotFound);
        },
    };
    if info.sender != config.admin {
        return Err(ContractError::Unauthorized);
    }
    let mut metrics = match state.may_load_user(&user) {
        Some(m) => m,
        None => UserMetrics::default(),
    };
    metrics.transaction_count = transaction_count;
    state.save_user(&user, metrics);
    let resp = Response::new()
        .add_attribute("method", "update_transaction_count".to_owned())
        .add_attribute("user", user.to_text())
        .add_attribute("transaction_count", u64_to_dec(transaction_count));
    proof {
        assert(resp@ =~= seq![
            ("method"@, "update_transaction_count"@),
            ("user"@, user@),
            ("transaction_count"@, dec_str(transaction_count as int)),
        ]);
        assert(state@ =~= update_transaction_count_step(
            old(state)@,
            info.sender@,
            user@,
            transaction_count,
        ).0);
    }
    Ok(resp)
}

/// Overwrites the target user's assets held; admin only.
pub fn update_assets_held(
    state: &mut ContractState,
    info: MessageInfo,
    user: Addr,
    assets_held: u128,
) -> (r: Result<Response, ContractError>)
    requires
        old(state).wf(),
    ensures
        final(state).wf(),
        r is Err ==> *final(state) == *old(state),
        final(state)@ == update_assets_held_step(old(state)@, info.sender@, user@, assets_held).0,
        response_view(r) == update_assets_held_step(
            old(state)@,
            info.sender@,
            user@,
            assets_held,
        ).1,
{
    let config = match state.load_config() {
        Some(c) => c,
        None => {
            return Err(ContractError::NotFound);
        },
    };
    if info.sender != config.admin {
        return Err(ContractError::Unauthorized);
    }
    let mut metrics = match state.may_load_user(&user) {
        Some(m) => m,
        None => UserMetrics::default(),
    };
    metrics.assets_held = assets_held;
    state.save_user(&user, metrics);
    let resp = Response::new()
        .add_attribute("method", "update_assets_held".to_owned())
        .add_attribute("user", user.to_text())
        .add_attribute("assets_held", u128_to_dec(assets_held));
    proof {
        assert(resp@ =~= seq![
            ("method"@, "update_assets_held"@),
            ("user"@, user@),
            ("assets_held"@, dec_str(assets_held as int)),
        ]);
        assert(state@ =~= update_assets_held_step(old(state)@, info.sender@, user@, assets_held).0);
    }
    Ok(resp)
}

/// Overwrites the target user's protocol usage count; admin only.
pub fn update_protocol_usage(
    state: &mut ContractState,
    info: MessageInfo,
    user: Addr,
    protocol_usage_count: u64,
) -> (r: Result<Response, ContractError>)
    requires
        old(state).wf(),
    ensures
        final(state).wf(),
        r is Err ==> *final(state) == *old(state),
        final(state)@ == update_protocol_usage_step(
            old(state)@,
            info.sender@,
            user@,
            protocol_usage_count,
        ).0,
        response_view(r) == update_protocol_usage_step(
            old(state)@,
            info.sender@,
            user@,
            protocol_usage_count,
        ).1,
{
    let config = match state.load_config() {
        Some(c) => c,
        None => {
            return Err(ContractError::NotFound);
        },
    };
    if info.sender != config.admin {
        return Err(ContractError::Unauthorized);
    }
    let mut metrics = match state.may_load_user(&user) {
        Some(m) => m,
        None => UserMetrics::default(),
    };
    metrics.protocol_usage_count = protocol_usage_count;
    state.save_user(&user, metrics);
    let resp = Response::new()
        .add_attribute("method", "update_protocol_usage".to_owned())
        .add_attribute("user", user.to_text())
        .add_attribute("protocol_usage_count", u64_to_dec(protocol_usage_count));
    proof {
        assert(resp@ =~= seq![
            ("method"@, "update_protocol_usage"@),
            ("user"@, user@),
            ("protocol_usage_count"@, dec_str(protocol_usage_count as int)),
        ]);
        assert(state@ =~= update_protocol_usage_step(
            old(state)@,
            info.sender@,
            user@,
            protocol_usage_count,
        ).0);
    }
    Ok(resp)
}

/// Recomputes the target user's credit score from the stored metrics and
/// the configured base score, and stores it. Callable by anyone. A formula
/// result beyond the 64-bit range fails with `ArithmeticOverflow` rather
/// than wrap, and changes nothing.
pub fn calculate_score(state: &mut ContractState, user: Addr) -> (r: Result<
    Response,
    ContractError,
>)
    requires
        old(state).wf(),
    ensures
        final(state).wf(),
        r is Err ==> *final(state) == *old(state),
        final(state)@ == calculate_score_step(old(state)@, user@).0,
        response_view(r) == calculate_score_step(old(state)@, user@).1,
{
    let config = match state.load_config() {
        Some(c) => c,
        None => {
            return Err(ContractError::NotFound);
        },
    };
    let mut metrics = match state.may_load_user(&user) {
        Some(m) => m,
        None => UserMetrics::default(),
    };
    let liquidity_part = metrics.liquidity / 1000;
    let assets_part = metrics.assets_held / 1000;
    if liquidity_part > u64::MAX as u128 || assets_part > u64::MAX as u128 {
        return Err(ContractError::ArithmeticOverflow);
    }
    let total = config.base_score as u128 + liquidity_part + assets_part
        + metrics.transaction_count as u128 + metrics.protocol_usage_count as u128;
    if total > u64::MAX as u128 {
        return Err(ContractError::ArithmeticOverflow);
    }
    let score = total as u64;
    metrics.credit_score = score;
    state.save_user(&user, metrics);
    let resp = Response::new()
        .add_attribute("method", "calculate_score".to_owned())
        .add_attribute("user", user.to_text())
        .add_attribute("score", u64_to_dec(score));
    proof {
        assert(resp@ =~= seq![
            ("method"@, "calculate_score"@),
            ("user"@, user@),
            ("score"@, dec_str(score as int)),
        ]);
        assert(state@ =~= calculate_score_step(old(state)@, user@).0);
    }
    Ok(resp)
}

/// Applies one mutating message, dispatched by tag.
pub fn execute(state: &mut ContractState, info: MessageInfo, msg: ExecuteMsg) -> (r: Result<
    Response,
    ContractError,
>)
    requires
        old(state).wf(),
    ensures
        final(state).wf(),
        r is Err ==> *final(state) == *old(state),
        final(state)@ == execute_step(old(state)@, info.sender@, msg).0,
        response_view(r) == execute_step(old(state)@, info.sender@, msg).1,
{
    match msg {
        ExecuteMsg::UpdateLiquidity { user, liquidity } => update_liquidity(
            state,
            info,
            user,
            liquidity,
        ),
        ExecuteMsg::UpdateTransactionCount { user, transaction_count } => update_transaction_count(
            state,
            info,
            user,
            transaction_count,
        ),
        ExecuteMsg::UpdateAssetsHeld { user, assets_held } => update_assets_held(
            state,
            info,
            user,
            assets_held,
        ),
        ExecuteMsg::UpdateProtocolUsage { user, protocol_usage_count } => update_protocol_usage(
            state,
            info,
            user,
            protocol_usage_count,
        ),
        ExecuteMsg::CalculateScore { user } => calculate_score(state, user),
    }
}

/// Reads the target user's full metrics record; `NotFound` for a user that
/// has never had an update or calculation applied.
pub fn query_user_score(state: &ContractState, user: &Addr) -> (r: Result<
    UserMetrics,
    ContractError,
>)
    requires
        state.wf(),
    ensures
        r == query_step(state@, user@),
{
    match state.may_load_user(user) {
        Some(m) => Ok(m),
        None => Err(ContractError::NotFound),
    }
}

/// Answers one read-only message, dispatched by tag.
pub fn query(state: &ContractState, msg: QueryMsg) -> (r: Result<UserMetrics, ContractError>)
    requires
        state.wf(),
    ensures
        r == (match msg {
            QueryMsg::GetScore { user } => query_step(state@, user@),
        }),
{
    match msg {
        QueryMsg::GetScore { user } => query_user_score(state, &user),
    }
}

} // verus!
