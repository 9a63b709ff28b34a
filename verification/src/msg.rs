use vstd::prelude::*;

use crate::addr::Addr;
use crate::state::UserMetrics;

verus! {

/// The initialization payload: the admin identity in raw string form, to be
/// validated, and the base score constant.
pub struct InstantiateMsg {
    pub admin: String,
    pub base_score: u64,
}

/// The caller's identity, as the host hands it to a mutating entry point.
pub struct MessageInfo {
    pub sender: Addr,
}

/// The mutating entry point's message, dispatched by tag.
pub enum ExecuteMsg {
    /// Overwrite the liquidity recorded for a user.
    UpdateLiquidity { user: Addr, liquidity: u128 },
    /// Overwrite the transaction count recorded for a user.
    UpdateTransactionCount { user: Addr, transaction_count: u64 },
    /// Overwrite the assets held recorded for a user.
    UpdateAssetsHeld { user: Addr, assets_held: u128 },
    /// Overwrite the protocol usage count recorded for a user.
    UpdateProtocolUsage { user: Addr, protocol_usage_count: u64 },
    /// Recompute and store the credit score of a user.
    CalculateScore { user: Addr },
}

/// The read-only entry point's message.
pub enum QueryMsg {
    /// Read the full metrics record of a user.
    GetScore { user: Addr },
}

/// The reply shape of `GetScore`: the user asked about and the user's
/// stored record.
pub struct UserScoreResponse {
    pub user: Addr,
    pub liquidity: u128,
    pub transaction_count: u64,
    pub assets_held: u128,
    pub protocol_usage_count: u64,
    pub score: u64,
}

impl UserScoreResponse {
    /// Builds the reply for one user from the user's stored record.
    pub fn new(user: Addr, metrics: &UserMetrics) -> (r: Self)
        ensures
            r.user == user,
            r.liquidity == metrics.liquidity,
            r.transaction_count == metrics.transaction_count,
            r.assets_held == metrics.assets_held,
            r.protocol_usage_count == metrics.protocol_usage_count,
            r.score == metrics.credit_score,
    {
        UserScoreResponse {
            user,
            liquidity: metrics.liquidity,
            transaction_count: metrics.transaction_count,
            assets_held: metrics.assets_held,
            protocol_usage_count: metrics.protocol_usage_count,
            score: metrics.credit_score,
        }
    }
}

} // verus!
