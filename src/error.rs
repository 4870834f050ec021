use vstd::prelude::*;

verus! {

/// Why a forced withdrawal was aborted. Every error aborts the whole
/// operation: no bookkeeping change of the attempt survives it.
#[derive(Debug, Clone, Copy, PartialEq, Eq, Structural)]
pub enum ForceWithdrawError {
    /// A record that the vault's own flags (or the margin account's stats)
    /// say must be supplied is missing or does not have the expected shape,
    /// or a record is supplied that the vault's flags say it does not have.
    SchemaCompatibility,
    /// Market or oracle data for the vault's spot market could not be resolved.
    StaleData,
    /// The withdrawal would break the share or balance invariants, or an
    /// amount does not fit its integer type.
    Accounting,
    /// The external margin protocol rejected the withdrawal.
    ExternalProtocol,
    /// The final token movement to the depositor failed.
    Transfer,
}

} // verus!
