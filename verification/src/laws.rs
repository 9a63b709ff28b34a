use vstd::prelude::*;

use crate::addr::valid_addr;
use crate::contract::{
    calculate_score_step, execute_step, instantiate_step, metrics_or_default, query_step, score_of,
    update_liquidity_step, with_assets_held, with_credit_score, with_liquidity,
    with_protocol_usage, with_transaction_count,
};
use crate::error::ContractError;
use crate::msg::ExecuteMsg;
use crate::state::{zero_metrics, StateView, UserMetrics};

verus! {

/// The user a mutating message addresses.
pub open spec fn msg_user(msg: ExecuteMsg) -> Seq<char> {
    match msg {
        ExecuteMsg::UpdateLiquidity { user, .. } => user@,
        ExecuteMsg::UpdateTransactionCount { user, .. } => user@,
        ExecuteMsg::UpdateAssetsHeld { user, .. } => user@,
        ExecuteMsg::UpdateProtocolUsage { user, .. } => user@,
        ExecuteMsg::CalculateScore { user } => user@,
    }
}

/// The record a successful field update stores: the prior record with
/// exactly the one targeted field overwritten.
pub open spec fn updated_record(m: UserMetrics, msg: ExecuteMsg) -> UserMetrics
    recommends
        !(msg matches ExecuteMsg::CalculateScore { .. }),
{
    match msg {
        ExecuteMsg::UpdateLiquidity { liquidity, .. } => with_liquidity(m, liquidity),
        ExecuteMsg::UpdateTransactionCount { transaction_count, .. } => with_transaction_count(
            m,
            transaction_count,
        ),
        ExecuteMsg::UpdateAssetsHeld { assets_held, .. } => with_assets_held(m, assets_held),
        ExecuteMsg::UpdateProtocolUsage { protocol_usage_count, .. } => with_protocol_usage(
            m,
            protocol_usage_count,
        ),
        ExecuteMsg::CalculateScore { .. } => m,
    }
}

/// A user with no stored record is answered with `NotFound` by the read
/// query.
pub proof fn lemma_query_absent_not_found(s: StateView, user: Seq<char>)
    requires
        !s.users.contains_key(user),
    ensures
        query_step(s, user) == Err::<UserMetrics, ContractError>(ContractError::NotFound),
{
}

/// No operation addressed to one user creates a record for another:
/// instantiation writes no user record, and a mutating step leaves every
/// user it does not address without a record. A user never updated
/// therefore never gains a record, and the read query keeps failing with
/// `NotFound` for that user.
pub proof fn lemma_untouched_user_stays_absent(
    s: StateView,
    sender: Seq<char>,
    msg: ExecuteMsg,
    admin: Seq<char>,
    base_score: u64,
    user: Seq<char>,
)
    requires
        !s.users.contains_key(user),
    ensures
        instantiate_step(s, admin, base_score).0.users == s.users,
        msg_user(msg) != user ==> !execute_step(s, sender, msg).0.users.contains_key(user),
{
}

/// A field update from any caller but the admin is rejected with
/// `Unauthorized` and leaves the stores unchanged.
pub proof fn lemma_non_admin_update_rejected(s: StateView, sender: Seq<char>, msg: ExecuteMsg)
    requires
        s.config matches Some(cfg) && sender != cfg.admin,
        !(msg matches ExecuteMsg::CalculateScore { .. }),
    ensures
        execute_step(s, sender, msg).0 == s,
        execute_step(s, sender, msg).1 == Err::<Seq<(Seq<char>, Seq<char>)>, ContractError>(
            ContractError::Unauthorized,
        ),
{
}

/// An admin-issued field update followed by the read query on the same user
/// yields the prior record (all-zero if absent) with exactly the targeted
/// field overwritten; the read query on every other user is unchanged.
pub proof fn lemma_field_update_reflected(
    s: StateView,
    sender: Seq<char>,
    msg: ExecuteMsg,
    other: Seq<char>,
)
    requires
        s.config matches Some(cfg) && sender == cfg.admin,
        !(msg matches ExecuteMsg::CalculateScore { .. }),
    ensures
        query_step(execute_step(s, sender, msg).0, msg_user(msg)) == Ok::<
            UserMetrics,
            ContractError,
        >(updated_record(metrics_or_default(s, msg_user(msg)), msg)),
        other != msg_user(msg) ==> query_step(execute_step(s, sender, msg).0, other) == query_step(
            s,
            other,
        ),
{
}

/// Applying the same `UpdateLiquidity` twice in succession leaves the same
/// stored state as applying it once: the write is a pure overwrite.
pub proof fn lemma_update_liquidity_idempotent(
    s: StateView,
    sender: Seq<char>,
    user: Seq<char>,
    liquidity: u128,
)
    ensures
        update_liquidity_step(
            update_liquidity_step(s, sender, user, liquidity).0,
            sender,
            user,
            liquidity,
        ).0 == update_liquidity_step(s, sender, user, liquidity).0,
{
    let s1 = update_liquidity_step(s, sender, user, liquidity).0;
    let s2 = update_liquidity_step(s1, sender, user, liquidity).0;
    match s.config {
        None => {},
        Some(cfg) => {
            if sender == cfg.admin {
                assert(s2.users =~= s1.users);
                assert(s2 =~= s1);
            }
        },
    }
}

/// Score calculation on a user with no prior record stores the all-zero
/// record with `credit_score` equal to the configured base score: every
/// metric term of the formula is zero.
pub proof fn lemma_calculate_score_fresh_user(s: StateView, user: Seq<char>)
    requires
        s.config matches Some(cfg),
        !s.users.contains_key(user),
    ensures
        calculate_score_step(s, user).1 is Ok,
        s.config matches Some(cfg) ==> calculate_score_step(s, user).0.users == s.users.insert(
            user,
            with_credit_score(zero_metrics(), cfg.base_score),
        ),
{
    let cfg = s.config->Some_0;
    assert(score_of(cfg.base_score, zero_metrics()) == cfg.base_score);
}

/// Instantiation with a malformed admin identity fails with
/// `InvalidAddress` and writes no config record: the state is unchanged.
pub proof fn lemma_malformed_admin_rejected(s: StateView, admin: Seq<char>, base_score: u64)
    requires
        !valid_addr(admin),
    ensures
        instantiate_step(s, admin, base_score).0 == s,
        instantiate_step(s, admin, base_score).1 == Err::<
            Seq<(Seq<char>, Seq<char>)>,
            ContractError,
        >(ContractError::InvalidAddress),
{
}

} // verus!
