use vstd::prelude::*;

use crate::error::ForceWithdrawError;
use crate::state::{
    fuel_overflow_exists, has_flag, has_pending_fee_update, UserStats, Vault, FUEL_OVERFLOW_EXISTS,
    PENDING_FEE_UPDATE,
};

verus! {

/// What the host reads of one trailing context entry before any
/// interpretation: its owner, its type tag and its size.
#[derive(Debug, Clone, Copy, PartialEq, Eq, Structural)]
pub struct TrailingEntry {
    /// The entry is owned by the vault program.
    pub owned_by_program: bool,
    /// The tag at the head of the entry's data.
    pub discriminator: u64,
    /// Length of the entry's data, tag included.
    pub data_len: u64,
}

/// The tag and the least size of one kind of record.
#[derive(Debug, Clone, Copy, PartialEq, Eq, Structural)]
pub struct RecordShape {
    pub discriminator: u64,
    pub size: u64,
}

/// The shapes of the three optional records.
#[derive(Debug, Clone, Copy, PartialEq, Eq, Structural)]
pub struct RecordShapes {
    pub vault_protocol: RecordShape,
    pub fuel_overflow: RecordShape,
    pub fee_update: RecordShape,
}

/// Which optional records this vault instance uses, and where each stands
/// among the trailing entries; `None` is an absent record. The entries
/// before `market_entries` are the market and oracle entries.
#[derive(Debug, Clone, Copy, PartialEq, Eq, Structural)]
pub struct Extensions {
    pub vault_protocol: Option<usize>,
    pub fuel_overflow: Option<usize>,
    pub fee_update: Option<usize>,
    pub market_entries: usize,
}

/// The entry can be read as a record of the given shape.
pub open spec fn interprets_as(entry: TrailingEntry, shape: RecordShape) -> bool {
    &&& entry.owned_by_program
    &&& entry.discriminator == shape.discriminator
    &&& entry.data_len >= shape.size
}

/// The entry `taken` places before the end, where there is one and it can be
/// read as a record of the given shape.
pub open spec fn record_at(entries: Seq<TrailingEntry>, taken: int, shape: RecordShape) -> Option<usize> {
    let i = entries.len() - 1 - taken;
    if 0 <= i && interprets_as(entries[i], shape) {
        Some(i as usize)
    } else {
        None
    }
}

/// Detection of the optional records. The fuel overflow flag of the margin
/// account's stats is read first. The last entry is then read as a protocol
/// extension record: if it is not one the vault is a legacy vault, and the
/// vault's own flag must agree. A fuel overflow record, where the stats
/// flag one, stands before it, and a fee update record, where the vault has
/// one pending, before that; a flagged record that is not found is an error.
/// A vault with no pending fee update never looks for that record.
pub open spec fn extensions_of(
    vault: Vault,
    user_stats: UserStats,
    entries: Seq<TrailingEntry>,
    shapes: RecordShapes,
) -> Result<Extensions, ForceWithdrawError> {
    let has_fuel_overflow = has_flag(user_stats.fuel_overflow_status, FUEL_OVERFLOW_EXISTS);
    let has_fee_update = has_flag(vault.fee_update_status, PENDING_FEE_UPDATE);
    let vault_protocol = record_at(entries, 0, shapes.vault_protocol);
    let taken_protocol: int = if vault_protocol is Some { 1 } else { 0 };
    let fuel_overflow = if has_fuel_overflow {
        record_at(entries, taken_protocol, shapes.fuel_overflow)
    } else {
        None
    };
    let taken_fuel: int = taken_protocol + if has_fuel_overflow { 1int } else { 0int };
    let fee_update = if has_fee_update {
        record_at(entries, taken_fuel, shapes.fee_update)
    } else {
        None
    };
    let taken_fee: int = taken_fuel + if has_fee_update { 1int } else { 0int };
    if vault.vault_protocol != vault_protocol is Some {
        Err(ForceWithdrawError::SchemaCompatibility)
    } else if has_fuel_overflow && fuel_overflow is None {
        Err(ForceWithdrawError::SchemaCompatibility)
    } else if has_fee_update && fee_update is None {
        Err(ForceWithdrawError::SchemaCompatibility)
    } else {
        Ok(Extensions {
            vault_protocol,
            fuel_overflow,
            fee_update,
            market_entries: (entries.len() - taken_fee) as usize,
        })
    }
}

/// Backward compatibility: where neither a fuel overflow nor a pending fee
/// update is flagged, trailing entries whose last one is not a protocol
/// extension record are resolved as no trailing entries at all are: the
/// same error, or the same answer that every optional record is absent.
pub proof fn lemma_legacy_context_is_no_context(
    vault: Vault,
    user_stats: UserStats,
    entries: Seq<TrailingEntry>,
    shapes: RecordShapes,
)
    requires
        !has_flag(user_stats.fuel_overflow_status, FUEL_OVERFLOW_EXISTS),
        !has_flag(vault.fee_update_status, PENDING_FEE_UPDATE),
        entries.len() > 0 ==> !interprets_as(entries.last(), shapes.vault_protocol),
    ensures
        ({
            let with_entries = extensions_of(vault, user_stats, entries, shapes);
            let without = extensions_of(vault, user_stats, Seq::<TrailingEntry>::empty(), shapes);
            &&& with_entries is Ok <==> without is Ok
            &&& with_entries is Err ==> with_entries == without
            &&& with_entries matches Ok(x) ==> {
                &&& x.vault_protocol is None
                &&& x.fuel_overflow is None
                &&& x.fee_update is None
            }
            &&& without matches Ok(y) ==> {
                &&& y.vault_protocol is None
                &&& y.fuel_overflow is None
                &&& y.fee_update is None
            }
        }),
{
}

/// Detection has no hidden input: resolving twice on the same vault, stats,
/// entries and shapes gives the same answer.
pub proof fn lemma_detection_deterministic(
    vault: Vault,
    user_stats: UserStats,
    entries: Seq<TrailingEntry>,
    shapes: RecordShapes,
    first: Result<Extensions, ForceWithdrawError>,
    second: Result<Extensions, ForceWithdrawError>,
)
    requires
        first == extensions_of(vault, user_stats, entries, shapes),
        second == extensions_of(vault, user_stats, entries, shapes),
    ensures
        first == second,
{
}

fn find_record(entries: &Vec<TrailingEntry>, taken: usize, shape: &RecordShape) -> (r: Option<usize>)
    ensures
        r == record_at(entries@, taken as int, *shape),
{
    if taken >= entries.len() {
        return None;
    }
    let i = entries.len() - 1 - taken;
    let entry = entries[i];
    if entry.owned_by_program && entry.discriminator == shape.discriminator && entry.data_len >= shape.size {
        Some(i)
    } else {
        None
    }
}

/// Resolves which optional records the vault uses, as `extensions_of` says.
/// The same inputs always give the same answer, and nothing is changed.
pub fn resolve_extensions(
    vault: &Vault,
    user_stats: &UserStats,
    entries: &Vec<TrailingEntry>,
    shapes: &RecordShapes,
) -> (r: Result<Extensions, ForceWithdrawError>)
    ensures
        r == extensions_of(*vault, *user_stats, entries@, *shapes),
{
    let has_fuel_overflow = fuel_overflow_exists(user_stats.fuel_overflow_status);
    let has_fee_update = has_pending_fee_update(vault.fee_update_status);
    let vault_protocol = find_record(entries, 0, &shapes.vault_protocol);
    let taken_protocol: usize = if vault_protocol.is_some() { 1 } else { 0 };
    let fuel_overflow = if has_fuel_overflow {
        find_record(entries, taken_protocol, &shapes.fuel_overflow)
    } else {
        None
    };
    let taken_fuel: usize = taken_protocol + if has_fuel_overflow { 1usize } else { 0usize };
    let fee_update = if has_fee_update {
        find_record(entries, taken_fuel, &shapes.fee_update)
    } else {
        None
    };
    if vault.vault_protocol != vault_protocol.is_some() {
        return Err(ForceWithdrawError::SchemaCompatibility);
    }
    if has_fuel_overflow && fuel_overflow.is_none() {
        return Err(ForceWithdrawError::SchemaCompatibility);
    }
    if has_fee_update && fee_update.is_none() {
        return Err(ForceWithdrawError::SchemaCompatibility);
    }
    let taken_fee: usize = taken_fuel + if has_fee_update { 1usize } else { 0usize };
    Ok(Extensions {
        vault_protocol,
        fuel_overflow,
        fee_update,
        market_entries: entries.len() - taken_fee,
    })
}

} // verus!
