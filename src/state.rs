use vstd::prelude::*;

verus! {

/// Bit of `UserStats::fuel_overflow_status` that says a fuel overflow record exists.
pub const FUEL_OVERFLOW_EXISTS: u8 = 1;

/// Bit of `Vault::fee_update_status` that says a fee update is pending.
pub const PENDING_FEE_UPDATE: u8 = 1;

/// The bits of `flag` are not all clear in `status`.
pub open spec fn has_flag(status: u8, flag: u8) -> bool {
    status & flag != 0
}

/// True when the margin account's stats record a fuel overflow record.
pub fn fuel_overflow_exists(status: u8) -> (r: bool)
    ensures
        r == has_flag(status, FUEL_OVERFLOW_EXISTS),
{
    status & FUEL_OVERFLOW_EXISTS != 0
}

/// True when the vault has a pending fee update.
pub fn has_pending_fee_update(status: u8) -> (r: bool)
    ensures
        r == has_flag(status, PENDING_FEE_UPDATE),
{
    status & PENDING_FEE_UPDATE != 0
}

/// One pooled fund, as far as a forced withdrawal reads and changes it.
#[derive(Debug, Clone, Copy, PartialEq, Eq, Structural)]
pub struct Vault {
    /// Spot market whose oracle values the vault's base asset.
    pub spot_market_index: u16,
    /// Set for vaults created with a protocol extension record.
    pub vault_protocol: bool,
    /// Fee update flags; see `PENDING_FEE_UPDATE`.
    pub fee_update_status: u8,
    /// All shares outstanding: depositors', the manager's and the protocol's.
    pub total_shares: u128,
    /// Shares held by depositors; never more than `total_shares`.
    pub user_shares: u128,
    /// Base-asset units paid out to depositors so far.
    pub total_withdraws: u64,
    /// Fees owed to the manager, carved out of equity before any claim.
    pub accrued_fees: u64,
    /// Fuel of the margin account that has already been spread over the shares.
    pub cumulative_fuel: u128,
    /// Fuel per share, scaled by `FUEL_SHARE_PRECISION`.
    pub cumulative_fuel_per_share: u128,
}

/// One depositor's position in a vault.
#[derive(Debug, Clone, Copy, PartialEq, Eq, Structural)]
pub struct VaultDepositor {
    pub vault_shares: u128,
    /// Base-asset units paid out to this depositor so far.
    pub total_withdraws: u64,
    /// Fuel credited to this depositor.
    pub fuel_amount: u128,
    /// The vault's fuel per share when this depositor was last credited.
    pub cumulative_fuel_per_share_amount: u128,
}

/// Protocol extension record of vaults created under the newer scheme.
#[derive(Debug, Clone, Copy, PartialEq, Eq, Structural)]
pub struct VaultProtocol {
    /// Fees owed to the protocol, carved out of equity before any claim.
    pub accrued_fees: u64,
}

/// A pending change of the vault's fee accrual.
#[derive(Debug, Clone, Copy, PartialEq, Eq, Structural)]
pub struct FeeUpdate {
    /// Fee, in base-asset units, that accrues once the update takes effect.
    pub fee_delta: u64,
    /// Unix time from which the update applies.
    pub effective_ts: i64,
}

/// Fuel of the margin account that no longer fits its stats record.
#[derive(Debug, Clone, Copy, PartialEq, Eq, Structural)]
pub struct FuelOverflow {
    pub overflow_fuel: u128,
}

/// What the vault reads of the margin account's stats record.
#[derive(Debug, Clone, Copy, PartialEq, Eq, Structural)]
pub struct UserStats {
    /// Flags; see `FUEL_OVERFLOW_EXISTS`.
    pub fuel_overflow_status: u8,
    /// Fuel recorded in the stats record itself.
    pub total_fuel: u128,
}

} // verus!
