//! Properties of the bulk operation bookkeeping that hold across calls.
use vstd::prelude::*;

use crate::principal::Principal;
use crate::user_index::canister::BulkIndividualCanisterOperationStatus;

verus! {

/// Whether each of the `total` canisters of the operation is either still
/// remaining, counted as done, or listed as failed.
pub open spec fn accounted(status: BulkIndividualCanisterOperationStatus, total: nat) -> bool {
    status.canisters_remaining.set().len() + status.completed_count + status.failed_canisters@.len() == total
}

/// A bulk operation starts with all its distinct canisters accounted for;
/// when no canister is listed twice, that is every listed canister.
pub proof fn law_start_accounts_for_every_canister(status: BulkIndividualCanisterOperationStatus, canister_ids: Seq<Principal>)
    requires
        status.canisters_remaining.set() == canister_ids.to_set(),
        status.completed_count == 0,
        status.failed_canisters@.len() == 0,
    ensures
        accounted(status, canister_ids.to_set().len()),
        canister_ids.no_duplicates() ==> accounted(status, canister_ids.len()),
{
    if canister_ids.no_duplicates() {
        canister_ids.unique_seq_to_set();
    }
}

/// Recording the outcome for a remaining canister keeps every canister
/// accounted for: it moves from the remaining ones to the done or failed.
pub proof fn law_record_keeps_canisters_accounted(
    before: BulkIndividualCanisterOperationStatus,
    after: BulkIndividualCanisterOperationStatus,
    canister_id: Principal,
    result: Result<(), String>,
    total: nat,
)
    requires
        accounted(before, total),
        before.canisters_remaining.set().contains(canister_id),
        after.canisters_remaining.set() == before.canisters_remaining.set().remove(canister_id),
        match result {
            Ok(()) => after.completed_count == before.completed_count + 1
                && after.failed_canisters@ == before.failed_canisters@,
            Err(reason) => after.completed_count == before.completed_count
                && after.failed_canisters@ == before.failed_canisters@.push((canister_id, reason)),
        },
    ensures
        accounted(after, total),
{
    vstd::seq_lib::seq_to_set_is_finite(before.canisters_remaining.seq());
}

} // verus!
