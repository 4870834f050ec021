use vstd::prelude::*;

use crate::accountant::withdraw_settlement;
use crate::error::ForceWithdrawError;
use crate::extensions::{extensions_of, resolve_extensions, Extensions, RecordShapes, TrailingEntry};
use crate::state::{FeeUpdate, FuelOverflow, UserStats, Vault, VaultDepositor, VaultProtocol};

verus! {

/// Where a forced withdrawal stands. The stages follow one another in this
/// order; `Transferred` and `Aborted` are final. The equity and the amount
/// are settled in one step, so no stage lies between them.
#[derive(Debug, Clone, Copy, PartialEq, Eq, Structural)]
pub enum Stage {
    Start,
    ExtensionsResolved,
    AmountComputed,
    ExternallyWithdrawn,
    Transferred,
    Aborted,
}

/// The optional records, decoded by the host at the places that resolution
/// gave; `None` where a record is absent or could not be decoded.
#[derive(Debug, Clone, Copy, PartialEq, Eq, Structural)]
pub struct ExtensionRecords {
    pub vault_protocol: Option<VaultProtocol>,
    pub fuel_overflow: Option<FuelOverflow>,
    pub fee_update: Option<FeeUpdate>,
}

/// The vault program's own records that a withdrawal changes.
#[derive(Debug, Clone, Copy, PartialEq, Eq, Structural)]
pub struct Books {
    pub vault: Vault,
    pub vault_depositor: VaultDepositor,
    pub vault_protocol: Option<VaultProtocol>,
    pub fee_update: Option<FeeUpdate>,
}

/// What the host reports back.
#[derive(Debug)]
pub enum Event {
    /// The trailing context entries of the operation, and the shapes of the
    /// optional records.
    Context { entries: Vec<TrailingEntry>, shapes: RecordShapes },
    /// The vault's equity, valued with the market and oracle data of this
    /// operation (`None` where that data could not be resolved), and the
    /// optional records.
    Equity { vault_equity: Option<i64>, records: ExtensionRecords },
    /// Whether the external protocol carried out the withdrawal.
    ExternalWithdrawn { succeeded: bool },
    /// Whether the token transfer to the depositor went through.
    Transferred { succeeded: bool },
}

/// What the host is to do next.
#[derive(Debug, Clone, Copy, PartialEq, Eq, Structural)]
pub enum Action {
    /// Value the vault with the market and oracle entries that resolution
    /// left, and decode the optional records it found.
    ComputeEquity { spot_market_index: u16, extensions: Extensions },
    /// Withdraw `amount` of the spot market's asset from the external
    /// protocol into the vault's own token account, without borrowing.
    ExternalWithdraw { spot_market_index: u16, amount: u64 },
    /// Move `amount` from the vault's token account to the depositor's.
    TokenTransfer { amount: u64 },
    /// Done: store the books; `amount` went to the depositor.
    Complete { amount: u64 },
    /// Roll the whole operation back and report `error`.
    Abort { error: ForceWithdrawError },
    /// The event does not belong to the current stage; nothing changed.
    Ignore,
}

/// One forced withdrawal in progress.
#[derive(Debug, Clone, Copy)]
pub struct ForceWithdraw {
    /// The books as the operation found them.
    pub before: Books,
    /// The books as the operation has changed them so far.
    pub books: Books,
    pub user_stats: UserStats,
    /// Unix time of the operation.
    pub now: i64,
    pub stage: Stage,
    pub extensions: Option<Extensions>,
    /// The equity the amount was computed at.
    pub vault_equity: i64,
    /// The amount owed to the depositor, once computed.
    pub withdraw_amount: u64,
}

impl ForceWithdraw {
    /// Outside transfers are only ever asked for a positive amount, and
    /// the amount asked for is the one the books record.
    pub open spec fn wf(&self) -> bool {
        &&& (self.stage is AmountComputed || self.stage is ExternallyWithdrawn) ==> self.withdraw_amount > 0
        &&& self.stage is Start ==> self.books == self.before
        &&& self.stage is ExtensionsResolved ==> self.extensions is Some
    }

    /// The operation given up: the books are back as they were found.
    pub open spec fn aborted(self) -> ForceWithdraw {
        ForceWithdraw { stage: Stage::Aborted, books: self.before, withdraw_amount: 0, ..self }
    }

    /// One step of the operation.
    pub open spec fn next(self, event: Event) -> (ForceWithdraw, Action) {
        match event {
            Event::Context { entries, shapes } => if self.stage is Start {
                match extensions_of(self.books.vault, self.user_stats, entries@, shapes) {
                    Ok(x) => (
                        ForceWithdraw { stage: Stage::ExtensionsResolved, extensions: Some(x), ..self },
                        Action::ComputeEquity { spot_market_index: self.books.vault.spot_market_index, extensions: x },
                    ),
                    Err(error) => (self.aborted(), Action::Abort { error }),
                }
            } else {
                (self, Action::Ignore)
            },
            Event::Equity { vault_equity, records } => if self.stage is ExtensionsResolved {
                let x = self.extensions->0;
                let found = Books {
                    vault_protocol: records.vault_protocol,
                    fee_update: records.fee_update,
                    ..self.books
                };
                let s = ForceWithdraw { before: found, books: found, ..self };
                if records.vault_protocol is Some != x.vault_protocol is Some
                    || records.fuel_overflow is Some != x.fuel_overflow is Some
                    || records.fee_update is Some != x.fee_update is Some {
                    (s.aborted(), Action::Abort { error: ForceWithdrawError::SchemaCompatibility })
                } else {
                    match vault_equity {
                        None => (s.aborted(), Action::Abort { error: ForceWithdrawError::StaleData }),
                        Some(equity) => match withdraw_settlement(
                            found.vault_depositor, equity, found.vault, found.vault_protocol,
                            found.fee_update, self.now, self.user_stats, records.fuel_overflow,
                        ) {
                            Err(error) => (s.aborted(), Action::Abort { error }),
                            Ok(st) => {
                                let settled = ForceWithdraw {
                                    books: Books {
                                        vault: st.vault,
                                        vault_depositor: st.vault_depositor,
                                        vault_protocol: st.vault_protocol,
                                        fee_update: st.fee_update,
                                    },
                                    vault_equity: equity,
                                    withdraw_amount: st.amount,
                                    ..s
                                };
                                if st.amount == 0 {
                                    (ForceWithdraw { stage: Stage::Transferred, ..settled }, Action::Complete { amount: 0 })
                                } else {
                                    (
                                        ForceWithdraw { stage: Stage::AmountComputed, ..settled },
                                        Action::ExternalWithdraw {
                                            spot_market_index: st.vault.spot_market_index,
                                            amount: st.amount,
                                        },
                                    )
                                }
                            },
                        },
                    }
                }
            } else {
                (self, Action::Ignore)
            },
            Event::ExternalWithdrawn { succeeded } => if self.stage is AmountComputed {
                if succeeded {
                    (
                        ForceWithdraw { stage: Stage::ExternallyWithdrawn, ..self },
                        Action::TokenTransfer { amount: self.withdraw_amount },
                    )
                } else {
                    (self.aborted(), Action::Abort { error: ForceWithdrawError::ExternalProtocol })
                }
            } else {
                (self, Action::Ignore)
            },
            Event::Transferred { succeeded } => if self.stage is ExternallyWithdrawn {
                if succeeded {
                    (ForceWithdraw { stage: Stage::Transferred, ..self }, Action::Complete { amount: self.withdraw_amount })
                } else {
                    (self.aborted(), Action::Abort { error: ForceWithdrawError::Transfer })
                }
            } else {
                (self, Action::Ignore)
            },
        }
    }

    /// A forced withdrawal of `vault_depositor` from `vault`, at time `now`.
    pub fn new(vault: Vault, vault_depositor: VaultDepositor, user_stats: UserStats, now: i64) -> (r: Self)
        ensures
            r.stage is Start,
            r.before == (Books { vault, vault_depositor, vault_protocol: None, fee_update: None }),
            r.books == r.before,
            r.user_stats == user_stats,
            r.now == now,
            r.extensions is None,
            r.vault_equity == 0,
            r.withdraw_amount == 0,
            r.wf(),
    {
        let books = Books { vault, vault_depositor, vault_protocol: None, fee_update: None };
        ForceWithdraw {
            before: books,
            books,
            user_stats,
            now,
            stage: Stage::Start,
            extensions: None,
            vault_equity: 0,
            withdraw_amount: 0,
        }
    }

    fn abort(&mut self, error: ForceWithdrawError) -> (r: Action)
        ensures
            *final(self) == old(self).aborted(),
            r == (Action::Abort { error }),
    {
        self.stage = Stage::Aborted;
        self.books = self.before;
        self.withdraw_amount = 0;
        Action::Abort { error }
    }

    /// Takes in what the host reports and says what it is to do next, as
    /// `next` describes.
    pub fn step(&mut self, event: Event) -> (r: Action)
        requires
            old(self).wf(),
        ensures
            (*final(self), r) == old(self).next(event),
            final(self).wf(),
    {
        match event {
            Event::Context { entries, shapes } => {
                if self.stage != Stage::Start {
                    return Action::Ignore;
                }
                match resolve_extensions(&self.books.vault, &self.user_stats, &entries, &shapes) {
                    Ok(x) => {
                        self.stage = Stage::ExtensionsResolved;
                        self.extensions = Some(x);
                        Action::ComputeEquity { spot_market_index: self.books.vault.spot_market_index, extensions: x }
                    },
                    Err(error) => self.abort(error),
                }
            },
            Event::Equity { vault_equity, records } => {
                if self.stage != Stage::ExtensionsResolved {
                    return Action::Ignore;
                }
                let x = self.extensions.unwrap();
                let found = Books {
                    vault_protocol: records.vault_protocol,
                    fee_update: records.fee_update,
                    ..self.books
                };
                self.before = found;
                self.books = found;
                if records.vault_protocol.is_some() != x.vault_protocol.is_some()
                    || records.fuel_overflow.is_some() != x.fuel_overflow.is_some()
                    || records.fee_update.is_some() != x.fee_update.is_some() {
                    return self.abort(ForceWithdrawError::SchemaCompatibility);
                }
                let equity = match vault_equity {
                    Some(e) => e,
                    None => return self.abort(ForceWithdrawError::StaleData),
                };
                let mut depositor = found.vault_depositor;
                let mut vault = found.vault;
                let mut vault_protocol = found.vault_protocol;
                let mut fee_update = found.fee_update;
                let outcome = depositor.withdraw(
                    equity,
                    &mut vault,
                    &mut vault_protocol,
                    &mut fee_update,
                    self.now,
                    &self.user_stats,
                    &records.fuel_overflow,
                );
                match outcome {
                    Err(error) => self.abort(error),
                    Ok((amount, _)) => {
                        self.books = Books { vault, vault_depositor: depositor, vault_protocol, fee_update };
                        self.vault_equity = equity;
                        self.withdraw_amount = amount;
                        if amount == 0 {
                            self.stage = Stage::Transferred;
                            Action::Complete { amount: 0 }
                        } else {
                            self.stage = Stage::AmountComputed;
                            Action::ExternalWithdraw { spot_market_index: vault.spot_market_index, amount }
                        }
                    },
                }
            },
            Event::ExternalWithdrawn { succeeded } => {
                if self.stage != Stage::AmountComputed {
                    return Action::Ignore;
                }
                if succeeded {
                    self.stage = Stage::ExternallyWithdrawn;
                    Action::TokenTransfer { amount: self.withdraw_amount }
                } else {
                    self.abort(ForceWithdrawError::ExternalProtocol)
                }
            },
            Event::Transferred { succeeded } => {
                if self.stage != Stage::ExternallyWithdrawn {
                    return Action::Ignore;
                }
                if succeeded {
                    self.stage = Stage::Transferred;
                    Action::Complete { amount: self.withdraw_amount }
                } else {
                    self.abort(ForceWithdrawError::Transfer)
                }
            },
        }
    }
}

/// Ordering: the host is asked to transfer tokens to the depositor only in
/// answer to a report that the external withdrawal succeeded, and for the
/// amount that was withdrawn; the stage that allows the transfer is entered
/// in no other way.
pub proof fn lemma_transfer_follows_external_withdrawal(s: ForceWithdraw, event: Event)
    requires
        s.wf(),
    ensures
        s.next(event).1 is TokenTransfer ==> {
            &&& s.stage is AmountComputed
            &&& event matches Event::ExternalWithdrawn { succeeded } && succeeded
            &&& s.next(event).1 == (Action::TokenTransfer { amount: s.withdraw_amount })
        },
        s.next(event).0.stage is ExternallyWithdrawn && !(s.stage is ExternallyWithdrawn) ==> {
            &&& s.stage is AmountComputed
            &&& event matches Event::ExternalWithdrawn { succeeded } && succeeded
        },
{
}

/// The amount that leaves the external protocol is the amount the books
/// record as withdrawn, and it is never zero; where the vault's equity is
/// not positive, nothing leaves at all.
pub proof fn lemma_outside_amounts(s: ForceWithdraw, event: Event)
    requires
        s.wf(),
    ensures
        s.next(event).1 matches Action::ExternalWithdraw { amount, .. } ==> {
            &&& amount > 0
            &&& amount == s.next(event).0.withdraw_amount
            &&& s.next(event).0.books.vault.total_withdraws == s.next(event).0.before.vault.total_withdraws + amount
        },
        s.next(event).1 matches Action::TokenTransfer { amount } ==> amount > 0,
        s.stage is ExtensionsResolved ==> (event matches Event::Equity { vault_equity: Some(e), .. } && e <= 0
            ==> (s.next(event).1 is Complete || s.next(event).1 is Abort)),
{
    if let Event::Equity { vault_equity: Some(e), records } = event {
        if s.stage is ExtensionsResolved {
            let found = Books { vault_protocol: records.vault_protocol, fee_update: records.fee_update, ..s.books };
            let r = withdraw_settlement(
                found.vault_depositor, e, found.vault, found.vault_protocol,
                found.fee_update, s.now, s.user_stats, records.fuel_overflow,
            );
            if r is Ok {
                crate::accountant::lemma_withdrawal_conserves(
                    found.vault_depositor, e, found.vault, found.vault_protocol,
                    found.fee_update, s.now, s.user_stats, records.fuel_overflow,
                );
                if e <= 0 {
                    crate::accountant::lemma_no_equity_no_payout(
                        found.vault_depositor, e, found.vault, found.vault_protocol,
                        found.fee_update, s.now, s.user_stats, records.fuel_overflow,
                    );
                }
            }
        }
    }
}

/// All or nothing: whenever the operation aborts, the books are back as
/// the operation found them and nothing is owed to the depositor.
pub proof fn lemma_abort_rolls_back(s: ForceWithdraw, event: Event)
    requires
        s.wf(),
    ensures
        s.next(event).1 is Abort ==> {
            &&& s.next(event).0.stage is Aborted
            &&& s.next(event).0.books == s.next(event).0.before
            &&& s.next(event).0.withdraw_amount == 0
        },
{
}

} // verus!
