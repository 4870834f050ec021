use drift_vaults::accountant::FUEL_SHARE_PRECISION;
use drift_vaults::error::ForceWithdrawError;
use drift_vaults::extensions::{resolve_extensions, Extensions, RecordShape, RecordShapes, TrailingEntry};
use drift_vaults::orchestrator::{Action, Books, Event, ExtensionRecords, ForceWithdraw, Stage};
use drift_vaults::state::{
    fuel_overflow_exists, has_pending_fee_update, FeeUpdate, FuelOverflow, UserStats, Vault,
    VaultDepositor, VaultProtocol,
};

fn vault(total_shares: u128, user_shares: u128) -> Vault {
    Vault {
        spot_market_index: 3,
        vault_protocol: false,
        fee_update_status: 0,
        total_shares,
        user_shares,
        total_withdraws: 0,
        accrued_fees: 0,
        cumulative_fuel: 0,
        cumulative_fuel_per_share: 0,
    }
}

fn depositor(vault_shares: u128) -> VaultDepositor {
    VaultDepositor { vault_shares, total_withdraws: 0, fuel_amount: 0, cumulative_fuel_per_share_amount: 0 }
}

fn stats() -> UserStats {
    UserStats { fuel_overflow_status: 0, total_fuel: 0 }
}

fn shapes() -> RecordShapes {
    RecordShapes {
        vault_protocol: RecordShape { discriminator: 11, size: 40 },
        fuel_overflow: RecordShape { discriminator: 22, size: 48 },
        fee_update: RecordShape { discriminator: 33, size: 56 },
    }
}

fn entry(discriminator: u64, data_len: u64) -> TrailingEntry {
    TrailingEntry { owned_by_program: true, discriminator, data_len }
}

fn market_entry() -> TrailingEntry {
    TrailingEntry { owned_by_program: false, discriminator: 99, data_len: 500 }
}

fn no_records() -> ExtensionRecords {
    ExtensionRecords { vault_protocol: None, fuel_overflow: None, fee_update: None }
}

fn resolved_session(v: Vault, d: VaultDepositor, entries: Vec<TrailingEntry>) -> ForceWithdraw {
    let mut s = ForceWithdraw::new(v, d, stats(), 1_000);
    let a = s.step(Event::Context { entries, shapes: shapes() });
    assert!(matches!(a, Action::ComputeEquity { spot_market_index: 3, .. }));
    s
}

#[test]
fn half_of_the_shares_take_half_of_the_equity() {
    let mut s = resolved_session(vault(100, 100), depositor(50), vec![market_entry()]);
    let a = s.step(Event::Equity { vault_equity: Some(1_000), records: no_records() });
    assert_eq!(a, Action::ExternalWithdraw { spot_market_index: 3, amount: 500 });
    assert_eq!(s.stage, Stage::AmountComputed);
    assert_eq!(s.books.vault_depositor.vault_shares, 0);
    assert_eq!(s.books.vault.total_shares, 50);
    assert_eq!(s.books.vault.user_shares, 50);
    assert_eq!(s.books.vault.total_withdraws, 500);
    assert_eq!(s.books.vault_depositor.total_withdraws, 500);
    assert_eq!(s.vault_equity - s.withdraw_amount as i64, 500);
    assert_eq!(s.step(Event::ExternalWithdrawn { succeeded: true }), Action::TokenTransfer { amount: 500 });
    assert_eq!(s.step(Event::Transferred { succeeded: true }), Action::Complete { amount: 500 });
    assert_eq!(s.stage, Stage::Transferred);
}

#[test]
fn pending_fee_update_is_applied_before_the_claim() {
    let mut v = vault(100, 100);
    v.fee_update_status = 1;
    let mut d = depositor(50);
    let mut vp = None;
    let mut fu = Some(FeeUpdate { fee_delta: 200, effective_ts: 900 });
    let r = d.withdraw(1_000, &mut v, &mut vp, &mut fu, 1_000, &stats(), &None);
    assert_eq!(r, Ok((400, 0)));
    assert_eq!(v.accrued_fees, 200);
    assert_eq!(v.fee_update_status, 0);
    assert_eq!(fu, Some(FeeUpdate { fee_delta: 0, effective_ts: 0 }));
    assert_eq!(v.total_shares, 50);
}

#[test]
fn fee_update_not_yet_in_effect_is_kept() {
    let mut v = vault(100, 100);
    v.fee_update_status = 1;
    let mut d = depositor(50);
    let mut vp = None;
    let mut fu = Some(FeeUpdate { fee_delta: 200, effective_ts: 2_000 });
    let r = d.withdraw(1_000, &mut v, &mut vp, &mut fu, 1_000, &stats(), &None);
    assert_eq!(r, Ok((500, 0)));
    assert_eq!(v.fee_update_status, 1);
    assert_eq!(v.accrued_fees, 0);
    assert_eq!(fu, Some(FeeUpdate { fee_delta: 200, effective_ts: 2_000 }));
}

#[test]
fn fee_update_accrues_to_the_protocol_record() {
    let mut v = vault(100, 100);
    v.vault_protocol = true;
    v.fee_update_status = 1;
    let mut d = depositor(50);
    let mut vp = Some(VaultProtocol { accrued_fees: 100 });
    let mut fu = Some(FeeUpdate { fee_delta: 100, effective_ts: 0 });
    let r = d.withdraw(1_000, &mut v, &mut vp, &mut fu, 1_000, &stats(), &None);
    assert_eq!(r, Ok((400, 0)));
    assert_eq!(vp, Some(VaultProtocol { accrued_fees: 200 }));
    assert_eq!(v.accrued_fees, 0);
}

#[test]
fn existing_fees_come_out_of_the_equity() {
    let mut v = vault(4, 4);
    v.accrued_fees = 200;
    let mut d = depositor(1);
    let r = d.withdraw(1_000, &mut v, &mut None, &mut None, 0, &stats(), &None);
    assert_eq!(r, Ok((200, 0)));
}

#[test]
fn claim_rounds_down() {
    let mut v = vault(3, 3);
    let mut d = depositor(1);
    let r = d.withdraw(1_001, &mut v, &mut None, &mut None, 0, &stats(), &None);
    assert_eq!(r, Ok((333, 0)));
    assert_eq!(v.total_shares, 2);
}

#[test]
fn manager_shares_stay_in_the_vault() {
    let mut v = vault(200, 100);
    let mut d = depositor(100);
    let r = d.withdraw(1_000, &mut v, &mut None, &mut None, 0, &stats(), &None);
    assert_eq!(r, Ok((500, 0)));
    assert_eq!(v.total_shares, 100);
    assert_eq!(v.user_shares, 0);
}

#[test]
fn fuel_overflow_is_counted_and_credited() {
    let mut v = vault(100, 100);
    let mut d = depositor(50);
    let st = UserStats { fuel_overflow_status: 1, total_fuel: 1_000 };
    let fo = Some(FuelOverflow { overflow_fuel: 500 });
    let r = d.withdraw(1_000, &mut v, &mut None, &mut None, 0, &st, &fo);
    assert_eq!(r, Ok((500, 0)));
    assert_eq!(v.cumulative_fuel, 1_500);
    assert_eq!(v.cumulative_fuel_per_share, 15 * FUEL_SHARE_PRECISION);
    assert_eq!(d.fuel_amount, 750);
    assert_eq!(d.cumulative_fuel_per_share_amount, 15 * FUEL_SHARE_PRECISION);
}

#[test]
fn fuel_without_overflow_ignores_an_overflow_record() {
    let mut v = vault(100, 100);
    let mut d = depositor(50);
    let st = UserStats { fuel_overflow_status: 0, total_fuel: 1_000 };
    let r = d.withdraw(1_000, &mut v, &mut None, &mut None, 0, &st, &Some(FuelOverflow { overflow_fuel: 500 }));
    assert_eq!(r, Ok((500, 0)));
    assert_eq!(v.cumulative_fuel, 1_000);
    assert_eq!(d.fuel_amount, 500);
}

#[test]
fn flagged_fuel_overflow_without_record_is_an_error() {
    let mut v = vault(100, 100);
    let mut d = depositor(50);
    let st = UserStats { fuel_overflow_status: 1, total_fuel: 1_000 };
    let r = d.withdraw(1_000, &mut v, &mut None, &mut None, 0, &st, &None);
    assert_eq!(r, Err(ForceWithdrawError::SchemaCompatibility));
    assert_eq!(v, vault(100, 100));
    assert_eq!(d, depositor(50));
}

#[test]
fn shares_beyond_the_vault_are_an_accounting_error() {
    let mut v = vault(100, 40);
    let mut d = depositor(50);
    let r = d.withdraw(1_000, &mut v, &mut None, &mut None, 0, &stats(), &None);
    assert_eq!(r, Err(ForceWithdrawError::Accounting));
    assert_eq!(d.vault_shares, 50);
}

#[test]
fn overflowing_claim_is_an_accounting_error() {
    let mut v = vault(u128::MAX, u128::MAX);
    let mut d = depositor(u128::MAX);
    let r = d.withdraw(1_000, &mut v, &mut None, &mut None, 0, &stats(), &None);
    assert_eq!(r, Err(ForceWithdrawError::Accounting));
    assert_eq!(v.total_shares, u128::MAX);
}

#[test]
fn whole_vault_exit_takes_all_equity() {
    let mut v = vault(u128::MAX, u128::MAX);
    let mut d = depositor(u128::MAX);
    let r = d.withdraw(1, &mut v, &mut None, &mut None, 0, &stats(), &None);
    assert_eq!(r, Ok((1, 0)));
    assert_eq!(v.total_shares, 0);
}

#[test]
fn empty_vault_pays_nothing() {
    let mut v = vault(0, 0);
    let mut d = depositor(0);
    let r = d.withdraw(1_000, &mut v, &mut None, &mut None, 0, &stats(), &None);
    assert_eq!(r, Ok((0, 0)));
}

#[test]
fn zero_equity_moves_no_funds() {
    let mut s = resolved_session(vault(100, 100), depositor(50), vec![]);
    assert_eq!(s.step(Event::Equity { vault_equity: Some(0), records: no_records() }), Action::Complete { amount: 0 });
    assert_eq!(s.stage, Stage::Transferred);
    assert_eq!(s.books.vault_depositor.vault_shares, 0);
    assert_eq!(s.step(Event::ExternalWithdrawn { succeeded: true }), Action::Ignore);
}

#[test]
fn negative_equity_moves_no_funds() {
    let mut s = resolved_session(vault(100, 100), depositor(50), vec![]);
    assert_eq!(s.step(Event::Equity { vault_equity: Some(-250), records: no_records() }), Action::Complete { amount: 0 });
    assert_eq!(s.withdraw_amount, 0);
}

#[test]
fn fees_above_equity_move_no_funds() {
    let mut v = vault(100, 100);
    v.accrued_fees = 2_000;
    let mut d = depositor(50);
    let r = d.withdraw(1_000, &mut v, &mut None, &mut None, 0, &stats(), &None);
    assert_eq!(r, Ok((0, 0)));
}

#[test]
fn rejected_external_withdrawal_changes_nothing() {
    let mut s = resolved_session(vault(100, 100), depositor(50), vec![]);
    s.step(Event::Equity { vault_equity: Some(1_000), records: no_records() });
    let a = s.step(Event::ExternalWithdrawn { succeeded: false });
    assert_eq!(a, Action::Abort { error: ForceWithdrawError::ExternalProtocol });
    assert_eq!(s.stage, Stage::Aborted);
    assert_eq!(s.books, Books { vault: vault(100, 100), vault_depositor: depositor(50), vault_protocol: None, fee_update: None });
    assert_eq!(s.withdraw_amount, 0);
    assert_eq!(s.step(Event::Transferred { succeeded: true }), Action::Ignore);
}

#[test]
fn failed_transfer_rolls_back() {
    let mut s = resolved_session(vault(100, 100), depositor(50), vec![]);
    s.step(Event::Equity { vault_equity: Some(1_000), records: no_records() });
    s.step(Event::ExternalWithdrawn { succeeded: true });
    let a = s.step(Event::Transferred { succeeded: false });
    assert_eq!(a, Action::Abort { error: ForceWithdrawError::Transfer });
    assert_eq!(s.books.vault_depositor, depositor(50));
    assert_eq!(s.books.vault, vault(100, 100));
}

#[test]
fn transfer_before_external_withdrawal_is_ignored() {
    let mut s = resolved_session(vault(100, 100), depositor(50), vec![]);
    s.step(Event::Equity { vault_equity: Some(1_000), records: no_records() });
    assert_eq!(s.step(Event::Transferred { succeeded: true }), Action::Ignore);
    assert_eq!(s.stage, Stage::AmountComputed);
}

#[test]
fn equity_before_resolution_is_ignored() {
    let mut s = ForceWithdraw::new(vault(100, 100), depositor(50), stats(), 0);
    assert_eq!(s.step(Event::Equity { vault_equity: Some(1_000), records: no_records() }), Action::Ignore);
    assert_eq!(s.stage, Stage::Start);
}

#[test]
fn missing_market_data_is_stale() {
    let mut s = resolved_session(vault(100, 100), depositor(50), vec![]);
    let a = s.step(Event::Equity { vault_equity: None, records: no_records() });
    assert_eq!(a, Action::Abort { error: ForceWithdrawError::StaleData });
    assert_eq!(s.stage, Stage::Aborted);
}

#[test]
fn undecoded_record_is_a_schema_error() {
    let mut v = vault(100, 100);
    v.vault_protocol = true;
    let mut s = resolved_session(v, depositor(50), vec![entry(11, 40)]);
    let a = s.step(Event::Equity { vault_equity: Some(1_000), records: no_records() });
    assert_eq!(a, Action::Abort { error: ForceWithdrawError::SchemaCompatibility });
    assert_eq!(s.books.vault, v);
}

#[test]
fn accounting_error_aborts_the_session() {
    let mut s = resolved_session(vault(100, 10), depositor(50), vec![]);
    let a = s.step(Event::Equity { vault_equity: Some(1_000), records: no_records() });
    assert_eq!(a, Action::Abort { error: ForceWithdrawError::Accounting });
    assert_eq!(s.books.vault_depositor.vault_shares, 50);
}

#[test]
fn legacy_vault_with_unreadable_last_entry_matches_no_context() {
    let v = vault(100, 100);
    let none = resolve_extensions(&v, &stats(), &vec![], &shapes()).unwrap();
    let other = resolve_extensions(&v, &stats(), &vec![entry(12, 400)], &shapes()).unwrap();
    let short = resolve_extensions(&v, &stats(), &vec![entry(11, 39)], &shapes()).unwrap();
    for x in [none, other, short] {
        assert_eq!(x.vault_protocol, None);
        assert_eq!(x.fuel_overflow, None);
        assert_eq!(x.fee_update, None);
    }
    assert_eq!(none.market_entries, 0);
    assert_eq!(other.market_entries, 1);

    let mut a = resolved_session(v, depositor(50), vec![]);
    let mut b = resolved_session(v, depositor(50), vec![entry(12, 400)]);
    let ra = a.step(Event::Equity { vault_equity: Some(1_000), records: no_records() });
    let rb = b.step(Event::Equity { vault_equity: Some(1_000), records: no_records() });
    assert_eq!(ra, rb);
    assert_eq!(a.books, b.books);
}

#[test]
fn detection_is_repeatable() {
    let mut v = vault(100, 100);
    v.vault_protocol = true;
    v.fee_update_status = 1;
    let st = UserStats { fuel_overflow_status: 1, total_fuel: 0 };
    let entries = vec![market_entry(), entry(33, 56), entry(22, 48), entry(11, 40)];
    let first = resolve_extensions(&v, &st, &entries, &shapes());
    let second = resolve_extensions(&v, &st, &entries, &shapes());
    assert_eq!(first, second);
    assert_eq!(
        first,
        Ok(Extensions { vault_protocol: Some(3), fuel_overflow: Some(2), fee_update: Some(1), market_entries: 1 })
    );
}

#[test]
fn protocol_flag_without_record_is_a_schema_error() {
    let mut v = vault(100, 100);
    v.vault_protocol = true;
    let r = resolve_extensions(&v, &stats(), &vec![market_entry()], &shapes());
    assert_eq!(r, Err(ForceWithdrawError::SchemaCompatibility));
}

#[test]
fn protocol_record_on_a_legacy_vault_is_a_schema_error() {
    let v = vault(100, 100);
    let r = resolve_extensions(&v, &stats(), &vec![entry(11, 40)], &shapes());
    assert_eq!(r, Err(ForceWithdrawError::SchemaCompatibility));
}

#[test]
fn entry_of_another_program_is_not_a_record() {
    let v = vault(100, 100);
    let foreign = TrailingEntry { owned_by_program: false, discriminator: 11, data_len: 40 };
    let r = resolve_extensions(&v, &stats(), &vec![foreign], &shapes());
    assert_eq!(r.unwrap().vault_protocol, None);
}

#[test]
fn flagged_fuel_overflow_record_must_be_supplied() {
    let v = vault(100, 100);
    let st = UserStats { fuel_overflow_status: 1, total_fuel: 0 };
    assert_eq!(resolve_extensions(&v, &st, &vec![], &shapes()), Err(ForceWithdrawError::SchemaCompatibility));
    assert_eq!(
        resolve_extensions(&v, &st, &vec![entry(22, 48)], &shapes()),
        Ok(Extensions { vault_protocol: None, fuel_overflow: Some(0), fee_update: None, market_entries: 0 })
    );
}

#[test]
fn pending_fee_update_record_must_be_supplied() {
    let mut v = vault(100, 100);
    v.fee_update_status = 1;
    assert_eq!(
        resolve_extensions(&v, &stats(), &vec![market_entry()], &shapes()),
        Err(ForceWithdrawError::SchemaCompatibility)
    );
    let mut s = ForceWithdraw::new(v, depositor(50), stats(), 0);
    let a = s.step(Event::Context { entries: vec![market_entry()], shapes: shapes() });
    assert_eq!(a, Action::Abort { error: ForceWithdrawError::SchemaCompatibility });
    assert_eq!(s.stage, Stage::Aborted);
}

#[test]
fn vault_without_pending_fee_update_never_reads_one() {
    let v = vault(100, 100);
    let r = resolve_extensions(&v, &stats(), &vec![market_entry(), entry(33, 56)], &shapes());
    assert_eq!(r, Ok(Extensions { vault_protocol: None, fuel_overflow: None, fee_update: None, market_entries: 2 }));
}

#[test]
fn fee_update_through_the_session() {
    let mut v = vault(100, 100);
    v.fee_update_status = 1;
    let mut s = resolved_session(v, depositor(50), vec![market_entry(), entry(33, 56)]);
    assert_eq!(s.extensions.unwrap().fee_update, Some(1));
    let records = ExtensionRecords {
        vault_protocol: None,
        fuel_overflow: None,
        fee_update: Some(FeeUpdate { fee_delta: 200, effective_ts: 0 }),
    };
    let a = s.step(Event::Equity { vault_equity: Some(1_000), records });
    assert_eq!(a, Action::ExternalWithdraw { spot_market_index: 3, amount: 400 });
    assert_eq!(s.before.fee_update, Some(FeeUpdate { fee_delta: 200, effective_ts: 0 }));
    assert_eq!(s.books.fee_update, Some(FeeUpdate { fee_delta: 0, effective_ts: 0 }));
}

#[test]
fn status_flags() {
    assert!(fuel_overflow_exists(1));
    assert!(fuel_overflow_exists(3));
    assert!(!fuel_overflow_exists(2));
    assert!(has_pending_fee_update(1));
    assert!(!has_pending_fee_update(0));
}
