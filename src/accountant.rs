use vstd::prelude::*;

use crate::error::ForceWithdrawError;
use crate::state::{
    FeeUpdate, FuelOverflow, UserStats, Vault, VaultDepositor, VaultProtocol, has_flag,
    fuel_overflow_exists, has_pending_fee_update, FUEL_OVERFLOW_EXISTS, PENDING_FEE_UPDATE,
};

verus! {

/// Scale of `Vault::cumulative_fuel_per_share`.
pub const FUEL_SHARE_PRECISION: u128 = 1_000_000;

/// The records as a successful withdrawal leaves them, and the amount it pays out.
#[derive(Debug, Clone, Copy)]
pub struct Settlement {
    pub vault_depositor: VaultDepositor,
    pub vault: Vault,
    pub vault_protocol: Option<VaultProtocol>,
    pub fee_update: Option<FeeUpdate>,
    pub amount: u64,
}

/// The share counts are ordered: the depositor's within the depositors',
/// the depositors' within all.
pub open spec fn shares_consistent(depositor: VaultDepositor, vault: Vault) -> bool {
    depositor.vault_shares <= vault.user_shares <= vault.total_shares
}

/// A fee update is pending on the vault, supplied, and in effect at `now`.
pub open spec fn fee_update_applies(vault: Vault, fee_update: Option<FeeUpdate>, now: i64) -> bool {
    &&& has_flag(vault.fee_update_status, PENDING_FEE_UPDATE)
    &&& fee_update matches Some(f)
    &&& now >= f.effective_ts
}

/// Reconciles a pending fee update: once in effect, its fee accrues to the
/// protocol record where the vault has one, else to the vault, and the
/// update is cleared.
pub open spec fn after_fee_update(
    vault: Vault,
    vault_protocol: Option<VaultProtocol>,
    fee_update: Option<FeeUpdate>,
    now: i64,
) -> Result<(Vault, Option<VaultProtocol>, Option<FeeUpdate>), ForceWithdrawError> {
    if has_flag(vault.fee_update_status, PENDING_FEE_UPDATE) && fee_update is None {
        Err(ForceWithdrawError::SchemaCompatibility)
    } else if !fee_update_applies(vault, fee_update, now) {
        Ok((vault, vault_protocol, fee_update))
    } else {
        let delta = fee_update->0.fee_delta;
        let cleared_vault = Vault {
            fee_update_status: vault.fee_update_status & !PENDING_FEE_UPDATE,
            ..vault
        };
        let cleared = Some(FeeUpdate { fee_delta: 0, effective_ts: 0 });
        match vault_protocol {
            Some(p) => if p.accrued_fees + delta > u64::MAX {
                Err(ForceWithdrawError::Accounting)
            } else {
                Ok((cleared_vault, Some(VaultProtocol { accrued_fees: (p.accrued_fees + delta) as u64 }), cleared))
            },
            None => if vault.accrued_fees + delta > u64::MAX {
                Err(ForceWithdrawError::Accounting)
            } else {
                Ok((Vault { accrued_fees: (vault.accrued_fees + delta) as u64, ..cleared_vault }, None, cleared))
            },
        }
    }
}

/// Fuel of the margin account: the stats record's own, plus the overflow
/// record's where the stats say one exists.
pub open spec fn fuel_total(user_stats: UserStats, fuel_overflow: Option<FuelOverflow>) -> Result<u128, ForceWithdrawError> {
    if has_flag(user_stats.fuel_overflow_status, FUEL_OVERFLOW_EXISTS) {
        match fuel_overflow {
            None => Err(ForceWithdrawError::SchemaCompatibility),
            Some(f) => if user_stats.total_fuel + f.overflow_fuel > u128::MAX {
                Err(ForceWithdrawError::Accounting)
            } else {
                Ok((user_stats.total_fuel + f.overflow_fuel) as u128)
            },
        }
    } else {
        Ok(user_stats.total_fuel)
    }
}

/// Fuel per share once the fuel gained since the last update is spread
/// over all shares.
pub open spec fn fuel_per_share(vault: Vault, total_fuel: u128) -> int {
    if total_fuel > vault.cumulative_fuel && vault.total_shares > 0 {
        vault.cumulative_fuel_per_share
            + (total_fuel - vault.cumulative_fuel) * FUEL_SHARE_PRECISION / (vault.total_shares as int)
    } else {
        vault.cumulative_fuel_per_share as int
    }
}

/// Spreads new fuel over the shares and credits the depositor with its part.
pub open spec fn after_fuel_update(vault: Vault, depositor: VaultDepositor, total_fuel: u128)
    -> Result<(Vault, VaultDepositor), ForceWithdrawError>
{
    let grows = total_fuel > vault.cumulative_fuel && vault.total_shares > 0;
    let per_share = fuel_per_share(vault, total_fuel);
    let gap = per_share - depositor.cumulative_fuel_per_share_amount;
    if grows && (total_fuel - vault.cumulative_fuel) * FUEL_SHARE_PRECISION > u128::MAX {
        Err(ForceWithdrawError::Accounting)
    } else if per_share > u128::MAX {
        Err(ForceWithdrawError::Accounting)
    } else if gap > 0 && depositor.vault_shares * gap > u128::MAX {
        Err(ForceWithdrawError::Accounting)
    } else {
        let earned: int = if gap > 0 { depositor.vault_shares * gap / (FUEL_SHARE_PRECISION as int) } else { 0 };
        if depositor.fuel_amount + earned > u128::MAX {
            Err(ForceWithdrawError::Accounting)
        } else {
            Ok((
                Vault {
                    cumulative_fuel: if grows { total_fuel } else { vault.cumulative_fuel },
                    cumulative_fuel_per_share: per_share as u128,
                    ..vault
                },
                VaultDepositor {
                    fuel_amount: (depositor.fuel_amount + earned) as u128,
                    cumulative_fuel_per_share_amount: per_share as u128,
                    ..depositor
                },
            ))
        }
    }
}

/// Fees owed out of the vault's equity, to the manager and the protocol.
pub open spec fn fees_owed(vault: Vault, vault_protocol: Option<VaultProtocol>) -> int {
    vault.accrued_fees + match vault_protocol {
        Some(p) => p.accrued_fees as int,
        None => 0,
    }
}

/// Equity that the shares hold a claim on: what is left after the fees,
/// and nothing where that is not positive.
pub open spec fn claimable_equity(vault_equity: i64, vault: Vault, vault_protocol: Option<VaultProtocol>) -> int {
    if vault_equity - fees_owed(vault, vault_protocol) > 0 {
        vault_equity - fees_owed(vault, vault_protocol)
    } else {
        0
    }
}

/// The proportional claim of `shares` out of `total_shares` on `claimable`,
/// rounded down.
pub open spec fn claim_amount(shares: u128, claimable: int, total_shares: u128) -> Result<int, ForceWithdrawError> {
    if total_shares == 0 || claimable == 0 {
        Ok(0)
    } else if shares * claimable > u128::MAX {
        Err(ForceWithdrawError::Accounting)
    } else {
        Ok(shares * claimable / (total_shares as int))
    }
}

/// A forced withdrawal of all of a depositor's shares at `vault_equity`:
/// fee update first, then fuel, then the claim on what equity is left
/// after fees; the depositor's shares leave the vault and the payout is
/// recorded on both sides.
pub open spec fn withdraw_settlement(
    depositor: VaultDepositor,
    vault_equity: i64,
    vault: Vault,
    vault_protocol: Option<VaultProtocol>,
    fee_update: Option<FeeUpdate>,
    now: i64,
    user_stats: UserStats,
    fuel_overflow: Option<FuelOverflow>,
) -> Result<Settlement, ForceWithdrawError> {
    if !shares_consistent(depositor, vault) {
        Err(ForceWithdrawError::Accounting)
    } else {
        match after_fee_update(vault, vault_protocol, fee_update, now) {
            Err(e) => Err(e),
            Ok((v1, protocol1, update1)) => match fuel_total(user_stats, fuel_overflow) {
                Err(e) => Err(e),
                Ok(total_fuel) => match after_fuel_update(v1, depositor, total_fuel) {
                    Err(e) => Err(e),
                    Ok((v2, d2)) => match claim_amount(
                        depositor.vault_shares,
                        claimable_equity(vault_equity, v2, protocol1),
                        v2.total_shares,
                    ) {
                        Err(e) => Err(e),
                        Ok(a) => if v2.total_withdraws + a > u64::MAX || d2.total_withdraws + a > u64::MAX {
                            Err(ForceWithdrawError::Accounting)
                        } else {
                            Ok(Settlement {
                                vault_depositor: VaultDepositor {
                                    vault_shares: 0,
                                    total_withdraws: (d2.total_withdraws + a) as u64,
                                    ..d2
                                },
                                vault: Vault {
                                    total_shares: (v2.total_shares - depositor.vault_shares) as u128,
                                    user_shares: (v2.user_shares - depositor.vault_shares) as u128,
                                    total_withdraws: (v2.total_withdraws + a) as u64,
                                    ..v2
                                },
                                vault_protocol: protocol1,
                                fee_update: update1,
                                amount: a as u64,
                            })
                        },
                    },
                },
            },
        }
    }
}

/// Conservation: a successful withdrawal takes exactly the shares the
/// depositor gives up out of the vault's share counts, pays out the claim of
/// those shares on the equity left after fees (rounded down, so that
/// `amount * total_shares <= shares * claimable < (amount + 1) * total_shares`),
/// and records exactly that amount as paid out on both sides.
pub proof fn lemma_withdrawal_conserves(
    depositor: VaultDepositor,
    vault_equity: i64,
    vault: Vault,
    vault_protocol: Option<VaultProtocol>,
    fee_update: Option<FeeUpdate>,
    now: i64,
    user_stats: UserStats,
    fuel_overflow: Option<FuelOverflow>,
)
    requires
        withdraw_settlement(
            depositor, vault_equity, vault, vault_protocol, fee_update, now, user_stats, fuel_overflow,
        ) is Ok,
    ensures
        ({
            let s = withdraw_settlement(
                depositor, vault_equity, vault, vault_protocol, fee_update, now, user_stats, fuel_overflow,
            )->Ok_0;
            let withdrawn = depositor.vault_shares - s.vault_depositor.vault_shares;
            let claimable = claimable_equity(vault_equity, s.vault, s.vault_protocol);
            &&& s.vault_depositor.vault_shares == 0
            &&& vault.total_shares - s.vault.total_shares == withdrawn
            &&& vault.user_shares - s.vault.user_shares == withdrawn
            &&& s.vault.total_withdraws == vault.total_withdraws + s.amount
            &&& s.vault_depositor.total_withdraws == depositor.total_withdraws + s.amount
            &&& vault.total_shares > 0 ==> {
                &&& s.amount * vault.total_shares <= withdrawn * claimable
                &&& withdrawn * claimable < (s.amount + 1) * vault.total_shares
            }
            &&& vault.total_shares == 0 ==> s.amount == 0
        }),
{
    let (v1, protocol1, update1) = after_fee_update(vault, vault_protocol, fee_update, now)->Ok_0;
    let total = fuel_total(user_stats, fuel_overflow)->Ok_0;
    let (v2, d2) = after_fuel_update(v1, depositor, total)->Ok_0;
    let c = claimable_equity(vault_equity, v2, protocol1);
    let shares = depositor.vault_shares as int;
    let t = vault.total_shares as int;
    if t > 0 && c != 0 {
        let a = shares * c / t;
        vstd::arithmetic::div_mod::lemma_fundamental_div_mod(shares * c, t);
        vstd::arithmetic::div_mod::lemma_mod_bound(shares * c, t);
        assert(a * t <= shares * c) by (nonlinear_arith)
            requires shares * c == t * a + (shares * c) % t, 0 <= (shares * c) % t;
        assert(shares * c < (a + 1) * t) by (nonlinear_arith)
            requires shares * c == t * a + (shares * c) % t, (shares * c) % t < t;
    }
}

/// Non-negativity: where the vault's equity is not positive, a withdrawal
/// that succeeds pays out nothing.
pub proof fn lemma_no_equity_no_payout(
    depositor: VaultDepositor,
    vault_equity: i64,
    vault: Vault,
    vault_protocol: Option<VaultProtocol>,
    fee_update: Option<FeeUpdate>,
    now: i64,
    user_stats: UserStats,
    fuel_overflow: Option<FuelOverflow>,
)
    requires
        vault_equity <= 0,
        withdraw_settlement(
            depositor, vault_equity, vault, vault_protocol, fee_update, now, user_stats, fuel_overflow,
        ) is Ok,
    ensures
        withdraw_settlement(
            depositor, vault_equity, vault, vault_protocol, fee_update, now, user_stats, fuel_overflow,
        )->Ok_0.amount == 0,
{
}

fn apply_fee_update(
    vault: Vault,
    vault_protocol: Option<VaultProtocol>,
    fee_update: Option<FeeUpdate>,
    now: i64,
) -> (r: Result<(Vault, Option<VaultProtocol>, Option<FeeUpdate>), ForceWithdrawError>)
    ensures
        r == after_fee_update(vault, vault_protocol, fee_update, now),
{
    let pending = has_pending_fee_update(vault.fee_update_status);
    match fee_update {
        None => {
            if pending {
                Err(ForceWithdrawError::SchemaCompatibility)
            } else {
                Ok((vault, vault_protocol, fee_update))
            }
        },
        Some(f) => {
            if !pending || now < f.effective_ts {
                return Ok((vault, vault_protocol, fee_update));
            }
            let mut cleared_vault = vault;
            cleared_vault.fee_update_status = vault.fee_update_status & !PENDING_FEE_UPDATE;
            let cleared = Some(FeeUpdate { fee_delta: 0, effective_ts: 0 });
            match vault_protocol {
                Some(p) => {
                    if p.accrued_fees > u64::MAX - f.fee_delta {
                        Err(ForceWithdrawError::Accounting)
                    } else {
                        let accrued = VaultProtocol { accrued_fees: p.accrued_fees + f.fee_delta };
                        Ok((cleared_vault, Some(accrued), cleared))
                    }
                },
                None => {
                    if vault.accrued_fees > u64::MAX - f.fee_delta {
                        Err(ForceWithdrawError::Accounting)
                    } else {
                        cleared_vault.accrued_fees = vault.accrued_fees + f.fee_delta;
                        Ok((cleared_vault, None, cleared))
                    }
                },
            }
        },
    }
}

fn total_fuel(user_stats: &UserStats, fuel_overflow: &Option<FuelOverflow>) -> (r: Result<u128, ForceWithdrawError>)
    ensures
        r == fuel_total(*user_stats, *fuel_overflow),
{
    if fuel_overflow_exists(user_stats.fuel_overflow_status) {
        match fuel_overflow {
            None => Err(ForceWithdrawError::SchemaCompatibility),
            Some(f) => {
                if user_stats.total_fuel > u128::MAX - f.overflow_fuel {
                    Err(ForceWithdrawError::Accounting)
                } else {
                    Ok(user_stats.total_fuel + f.overflow_fuel)
                }
            },
        }
    } else {
        Ok(user_stats.total_fuel)
    }
}

fn update_fuel(vault: Vault, depositor: VaultDepositor, total_fuel: u128) -> (r: Result<(Vault, VaultDepositor), ForceWithdrawError>)
    ensures
        r == after_fuel_update(vault, depositor, total_fuel),
{
    let grows = total_fuel > vault.cumulative_fuel && vault.total_shares > 0;
    let per_share: u128 = if grows {
        let scaled = match (total_fuel - vault.cumulative_fuel).checked_mul(FUEL_SHARE_PRECISION) {
            Some(x) => x,
            None => return Err(ForceWithdrawError::Accounting),
        };
        let increase = scaled / vault.total_shares;
        if vault.cumulative_fuel_per_share > u128::MAX - increase {
            return Err(ForceWithdrawError::Accounting);
        }
        vault.cumulative_fuel_per_share + increase
    } else {
        vault.cumulative_fuel_per_share
    };
    let earned: u128 = if per_share > depositor.cumulative_fuel_per_share_amount {
        let gap = per_share - depositor.cumulative_fuel_per_share_amount;
        match depositor.vault_shares.checked_mul(gap) {
            Some(x) => x / FUEL_SHARE_PRECISION,
            None => return Err(ForceWithdrawError::Accounting),
        }
    } else {
        0
    };
    if depositor.fuel_amount > u128::MAX - earned {
        return Err(ForceWithdrawError::Accounting);
    }
    let mut v = vault;
    if grows {
        v.cumulative_fuel = total_fuel;
    }
    v.cumulative_fuel_per_share = per_share;
    let mut d = depositor;
    d.fuel_amount = depositor.fuel_amount + earned;
    d.cumulative_fuel_per_share_amount = per_share;
    Ok((v, d))
}

fn compute_claimable(vault_equity: i64, vault: &Vault, vault_protocol: &Option<VaultProtocol>) -> (r: u64)
    ensures
        r == claimable_equity(vault_equity, *vault, *vault_protocol),
{
    let protocol_fees: i128 = match vault_protocol {
        Some(p) => p.accrued_fees as i128,
        None => 0,
    };
    let fees: i128 = vault.accrued_fees as i128 + protocol_fees;
    let equity = vault_equity as i128;
    if equity > fees {
        (equity - fees) as u64
    } else {
        0
    }
}

proof fn lemma_claim_within(shares: int, claimable: int, total_shares: int)
    requires
        0 <= shares <= total_shares,
        0 < total_shares,
        0 <= claimable,
    ensures
        shares * claimable / total_shares <= claimable,
{
    assert(shares * claimable <= total_shares * claimable) by (nonlinear_arith)
        requires 0 <= shares <= total_shares, 0 <= claimable;
    vstd::arithmetic::div_mod::lemma_div_is_ordered(shares * claimable, total_shares * claimable, total_shares);
    vstd::arithmetic::div_mod::lemma_div_by_multiple(claimable, total_shares);
    assert(total_shares * claimable == claimable * total_shares) by (nonlinear_arith);
}

fn compute_claim(shares: u128, claimable: u64, total_shares: u128) -> (r: Result<u64, ForceWithdrawError>)
    requires
        shares <= total_shares,
    ensures
        r matches Ok(a) ==> claim_amount(shares, claimable as int, total_shares) == Ok::<int, ForceWithdrawError>(a as int),
        r matches Err(e) ==> claim_amount(shares, claimable as int, total_shares) == Err::<int, ForceWithdrawError>(e),
{
    if total_shares == 0 || claimable == 0 {
        return Ok(0);
    }
    match shares.checked_mul(claimable as u128) {
        None => Err(ForceWithdrawError::Accounting),
        Some(product) => {
            proof {
                lemma_claim_within(shares as int, claimable as int, total_shares as int);
            }
            Ok((product / total_shares) as u64)
        },
    }
}

impl VaultDepositor {
    /// Withdraws all of this depositor's shares at `vault_equity`, as
    /// `withdraw_settlement` describes, and returns the amount owed with the
    /// shares left to the depositor. On an error nothing is changed.
    pub fn withdraw(
        &mut self,
        vault_equity: i64,
        vault: &mut Vault,
        vault_protocol: &mut Option<VaultProtocol>,
        fee_update: &mut Option<FeeUpdate>,
        now: i64,
        user_stats: &UserStats,
        fuel_overflow: &Option<FuelOverflow>,
    ) -> (r: Result<(u64, u128), ForceWithdrawError>)
        ensures
            match withdraw_settlement(
                *old(self), vault_equity, *old(vault), *old(vault_protocol), *old(fee_update),
                now, *user_stats, *fuel_overflow,
            ) {
                Ok(s) => {
                    &&& r == Ok::<(u64, u128), ForceWithdrawError>((s.amount, 0u128))
                    &&& *final(self) == s.vault_depositor
                    &&& *final(vault) == s.vault
                    &&& *final(vault_protocol) == s.vault_protocol
                    &&& *final(fee_update) == s.fee_update
                },
                Err(e) => {
                    &&& r == Err::<(u64, u128), ForceWithdrawError>(e)
                    &&& *final(self) == *old(self)
                    &&& *final(vault) == *old(vault)
                    &&& *final(vault_protocol) == *old(vault_protocol)
                    &&& *final(fee_update) == *old(fee_update)
                },
            },
    {
        let depositor = *self;
        let shares = depositor.vault_shares;
        if !(shares <= vault.user_shares && vault.user_shares <= vault.total_shares) {
            return Err(ForceWithdrawError::Accounting);
        }
        let (v1, protocol1, update1) = match apply_fee_update(*vault, *vault_protocol, *fee_update, now) {
            Ok(t) => t,
            Err(e) => return Err(e),
        };
        let fuel = match total_fuel(user_stats, fuel_overflow) {
            Ok(t) => t,
            Err(e) => return Err(e),
        };
        let (v2, d2) = match update_fuel(v1, depositor, fuel) {
            Ok(t) => t,
            Err(e) => return Err(e),
        };
        let claimable = compute_claimable(vault_equity, &v2, &protocol1);
        let amount = match compute_claim(shares, claimable, v2.total_shares) {
            Ok(a) => a,
            Err(e) => return Err(e),
        };
        if v2.total_withdraws > u64::MAX - amount || d2.total_withdraws > u64::MAX - amount {
            return Err(ForceWithdrawError::Accounting);
        }
        let mut d3 = d2;
        d3.vault_shares = 0;
        d3.total_withdraws = d2.total_withdraws + amount;
        let mut v3 = v2;
        v3.total_shares = v2.total_shares - shares;
        v3.user_shares = v2.user_shares - shares;
        v3.total_withdraws = v2.total_withdraws + amount;
        *self = d3;
        *vault = v3;
        *vault_protocol = protocol1;
        *fee_update = update1;
        Ok((amount, 0))
    }
}

} // verus!
