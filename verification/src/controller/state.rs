//! What the controller keeps: its configuration and the redemption requests.

use crate::address::Address;
use vstd::prelude::*;

verus! {

/// The configuration of one deployed token: the role registry, the pause
/// flag, and the counter from which request ids are drawn.
///
/// The four roles are set independently and may coincide.
#[derive(Clone, Copy, Debug, PartialEq, Eq)]
pub struct Config {
    /// Who may change the roles and the pause flag.
    pub admin: Address,
    /// Who may mint and may advance and fulfil redemptions.
    pub supply_controller: Address,
    /// Who may blacklist and wipe.
    pub asset_protection: Address,
    /// Who may set and withdraw transfer fees.
    pub fee_controller: Address,
    /// The token unit that this configuration governs.
    pub mint: Address,
    /// The gatekeeper that the ledger consults on every transfer.
    pub gatekeeper_program: Address,
    /// The id given to the latest redemption request; 0 before the first.
    pub redemption_request_counter: u64,
    /// Whether pause-sensitive operations are refused.
    pub is_paused: bool,
}

impl Default for Config {
    /// The blank configuration: every address zero, the counter at 0, not
    /// paused.
    fn default() -> (config: Config)
        ensures
            config.admin.is_zero(),
            config.supply_controller.is_zero(),
            config.asset_protection.is_zero(),
            config.fee_controller.is_zero(),
            config.mint.is_zero(),
            config.gatekeeper_program.is_zero(),
            config.redemption_request_counter == 0,
            !config.is_paused,
    {
        let zero = Address::new([0u8;32]);
        Config {
            admin: zero,
            supply_controller: zero,
            asset_protection: zero,
            fee_controller: zero,
            mint: zero,
            gatekeeper_program: zero,
            redemption_request_counter: 0,
            is_paused: false,
        }
    }
}

/// Where a redemption request stands.
///
/// `Pending` leads to `Processing`, `Fulfilled` or `Cancelled`; `Processing`
/// leads to `Fulfilled` only; `Fulfilled` and `Cancelled` are final.
#[derive(Clone, Copy, Debug, PartialEq, Eq, Structural, Hash)]
pub enum RedemptionStatus {
    Pending,
    Processing,
    Fulfilled,
    Cancelled,
}

impl RedemptionStatus {
    /// Whether no operation may follow.
    pub open spec fn is_terminal(self) -> bool {
        self == RedemptionStatus::Fulfilled || self == RedemptionStatus::Cancelled
    }

    /// Whether the lifecycle allows a step from `self` to `next`.
    pub open spec fn leads_to(self, next: RedemptionStatus) -> bool {
        match self {
            RedemptionStatus::Pending => next != RedemptionStatus::Pending,
            RedemptionStatus::Processing => next == RedemptionStatus::Fulfilled,
            RedemptionStatus::Fulfilled => false,
            RedemptionStatus::Cancelled => false,
        }
    }
}

/// One redemption request. It exists from its creation until it is
/// fulfilled or cancelled, and is then reclaimed.
#[derive(Clone, Copy, Debug, PartialEq, Eq)]
pub struct RedemptionRequest {
    /// Who asked.
    pub user: Address,
    /// The amount to redeem, fixed at creation.
    pub amount: u64,
    /// Where the request stands.
    pub status: RedemptionStatus,
    /// When it was created.
    pub requested_at: i64,
    /// When it reached a final status; 0 until then.
    pub completed_at: i64,
    /// Its id, drawn from the configuration's counter.
    pub request_id: u64,
    /// The bump seed of its custody delegate.
    pub redemption_pda_bump: u8,
}

} // verus!
