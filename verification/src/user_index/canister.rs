//! The user index's state and the bookkeeping steps of its canister
//! management requests. The calls to other canisters are made by the
//! platform between these steps.
use vstd::prelude::*;

use crate::keyed_vec::KeyedVec;
use crate::principal::{principal_from_text, principal_from_text_result, principal_bytes, principal_wf, Principal};
use crate::principal_set::PrincipalSet;
use crate::text::literal;

verus! {

/// The platform orchestrator's principal, in text form.
pub const PLATFORM_ORCHESTRATOR_ID: &'static str = "74zq4-iqaaa-aaaam-ab53a-cai";

/// The progress of an operation run on many canisters: those still to
/// report, how many succeeded, and those that failed with the reason.
pub struct BulkIndividualCanisterOperationStatus {
    pub canisters_remaining: PrincipalSet,
    pub completed_count: u64,
    pub failed_canisters: Vec<(Principal, String)>,
}

impl BulkIndividualCanisterOperationStatus {
    /// Nothing remaining, nothing done.
    pub fn new() -> (s: BulkIndividualCanisterOperationStatus)
        ensures
            s.canisters_remaining.seq() == Seq::<Principal>::empty(),
            s.completed_count == 0,
            s.failed_canisters@ == Seq::<(Principal, String)>::empty(),
    {
        BulkIndividualCanisterOperationStatus {
            canisters_remaining: PrincipalSet::new(),
            completed_count: 0,
            failed_canisters: Vec::new(),
        }
    }

    /// A copy.
    pub fn duplicate(&self) -> (r: BulkIndividualCanisterOperationStatus)
        ensures
            r.canisters_remaining.seq() == self.canisters_remaining.seq(),
            r.completed_count == self.completed_count,
            r.failed_canisters@ == self.failed_canisters@,
    {
        let mut failed: Vec<(Principal, String)> = Vec::new();
        let mut i: usize = 0;
        while i < self.failed_canisters.len()
            invariant
                i <= self.failed_canisters@.len(),
                failed@ == self.failed_canisters@.take(i as int),
            decreases self.failed_canisters@.len() - i,
        {
            let (p, reason) = &self.failed_canisters[i];
            failed.push((*p, reason.clone()));
            i = i + 1;
            assert(failed@ =~= self.failed_canisters@.take(i as int));
        }
        assert(failed@ =~= self.failed_canisters@);
        BulkIndividualCanisterOperationStatus {
            canisters_remaining: self.canisters_remaining.duplicate(),
            completed_count: self.completed_count,
            failed_canisters: failed,
        }
    }
}

/// The state of the user index that its canister management reads and changes.
pub struct CanisterData {
    pub user_principal_id_to_canister_id_map: KeyedVec<Principal, Principal>,
    pub available_canisters: PrincipalSet,
    pub backup_canister_pool: PrincipalSet,
    pub bulk_operation_status: BulkIndividualCanisterOperationStatus,
}

/// The canisters of the users, in the order the map stores them.
pub open spec fn assigned_canisters(m: KeyedVec<Principal, Principal>) -> Seq<Principal> {
    m.pairs().map_values(|pair: (Principal, Principal)| pair.1)
}

impl CanisterData {
    /// Nobody has a canister and no operation has run.
    pub fn new() -> (d: CanisterData)
        ensures
            d.user_principal_id_to_canister_id_map.map() == Map::<Principal, Principal>::empty(),
            d.available_canisters.seq() == Seq::<Principal>::empty(),
            d.backup_canister_pool.seq() == Seq::<Principal>::empty(),
            d.bulk_operation_status.canisters_remaining.seq() == Seq::<Principal>::empty(),
            d.bulk_operation_status.completed_count == 0,
            d.bulk_operation_status.failed_canisters@ == Seq::<(Principal, String)>::empty(),
    {
        CanisterData {
            user_principal_id_to_canister_id_map: KeyedVec::new(),
            available_canisters: PrincipalSet::new(),
            backup_canister_pool: PrincipalSet::new(),
            bulk_operation_status: BulkIndividualCanisterOperationStatus::new(),
        }
    }

    /// Every canister the index knows: the users' canisters, then the
    /// available ones, then the backup pool.
    pub fn all_canister_ids(&self) -> (r: Vec<Principal>)
        ensures
            r@ == assigned_canisters(self.user_principal_id_to_canister_id_map)
                + self.available_canisters.seq() + self.backup_canister_pool.seq(),
    {
        let pairs = self.user_principal_id_to_canister_id_map.as_pairs();
        let mut ids: Vec<Principal> = Vec::new();
        let mut i: usize = 0;
        while i < pairs.len()
            invariant
                pairs@ == self.user_principal_id_to_canister_id_map.pairs(),
                i <= pairs@.len(),
                ids@ == assigned_canisters(self.user_principal_id_to_canister_id_map).take(i as int),
            decreases pairs@.len() - i,
        {
            ids.push(pairs[i].1);
            i = i + 1;
            assert(ids@ =~= assigned_canisters(self.user_principal_id_to_canister_id_map).take(i as int));
        }
        let ghost assigned = ids@;
        assert(assigned =~= assigned_canisters(self.user_principal_id_to_canister_id_map));
        let available = self.available_canisters.as_vec();
        let mut j: usize = 0;
        while j < available.len()
            invariant
                available@ == self.available_canisters.seq(),
                j <= available@.len(),
                ids@ == assigned + available@.take(j as int),
            decreases available@.len() - j,
        {
            ids.push(available[j]);
            j = j + 1;
            assert(ids@ =~= assigned + available@.take(j as int));
        }
        assert(available@.take(j as int) =~= available@);
        let ghost with_available = ids@;
        let backup = self.backup_canister_pool.as_vec();
        let mut k: usize = 0;
        while k < backup.len()
            invariant
                backup@ == self.backup_canister_pool.seq(),
                k <= backup@.len(),
                ids@ == with_available + backup@.take(k as int),
            decreases backup@.len() - k,
        {
            ids.push(backup[k]);
            k = k + 1;
            assert(ids@ =~= with_available + backup@.take(k as int));
        }
        assert(backup@.take(k as int) =~= backup@);
        ids
    }

    /// Starts a bulk operation over `canister_ids`: all of them remaining,
    /// none done.
    pub fn start_bulk_operation(&mut self, canister_ids: &Vec<Principal>)
        ensures
            final(self).bulk_operation_status.canisters_remaining.set() == canister_ids@.to_set(),
            final(self).bulk_operation_status.completed_count == 0,
            final(self).bulk_operation_status.failed_canisters@ == Seq::<(Principal, String)>::empty(),
            final(self).user_principal_id_to_canister_id_map == old(self).user_principal_id_to_canister_id_map,
            final(self).available_canisters == old(self).available_canisters,
            final(self).backup_canister_pool == old(self).backup_canister_pool,
    {
        let mut remaining = PrincipalSet::new();
        let mut i: usize = 0;
        while i < canister_ids.len()
            invariant
                i <= canister_ids@.len(),
                remaining.set() == canister_ids@.take(i as int).to_set(),
            decreases canister_ids@.len() - i,
        {
            remaining.insert(canister_ids[i]);
            proof {
                assert(canister_ids@.take(i + 1) =~= canister_ids@.take(i as int).push(canister_ids@[i as int]));
                canister_ids@.take(i as int).lemma_push_to_set_commute(canister_ids@[i as int]);
            }
            i = i + 1;
        }
        assert(canister_ids@.take(i as int) =~= canister_ids@);
        self.bulk_operation_status = BulkIndividualCanisterOperationStatus {
            canisters_remaining: remaining,
            completed_count: 0,
            failed_canisters: Vec::new(),
        };
    }

    /// Records the outcome for one canister of the bulk operation: it no
    /// longer remains, and it counts as done or joins the failures.
    pub fn record_bulk_result(&mut self, canister_id: Principal, result: Result<(), String>)
        requires
            result is Ok ==> old(self).bulk_operation_status.completed_count < u64::MAX,
        ensures
            final(self).bulk_operation_status.canisters_remaining.set()
                == old(self).bulk_operation_status.canisters_remaining.set().remove(canister_id),
            match result {
                Ok(()) => {
                    &&& final(self).bulk_operation_status.completed_count == old(self).bulk_operation_status.completed_count + 1
                    &&& final(self).bulk_operation_status.failed_canisters@ == old(self).bulk_operation_status.failed_canisters@
                },
                Err(reason) => {
                    &&& final(self).bulk_operation_status.completed_count == old(self).bulk_operation_status.completed_count
                    &&& final(self).bulk_operation_status.failed_canisters@
                        == old(self).bulk_operation_status.failed_canisters@.push((canister_id, reason))
                },
            },
            final(self).user_principal_id_to_canister_id_map == old(self).user_principal_id_to_canister_id_map,
            final(self).available_canisters == old(self).available_canisters,
            final(self).backup_canister_pool == old(self).backup_canister_pool,
    {
        let mut status = BulkIndividualCanisterOperationStatus::new();
        std::mem::swap(&mut status, &mut self.bulk_operation_status);
        let BulkIndividualCanisterOperationStatus { canisters_remaining, completed_count, failed_canisters } = status;
        let mut remaining = canisters_remaining;
        remaining.remove(&canister_id);
        let mut failed = failed_canisters;
        let completed = match result {
            Ok(()) => completed_count + 1,
            Err(reason) => {
                failed.push((canister_id, reason));
                completed_count
            },
        };
        self.bulk_operation_status = BulkIndividualCanisterOperationStatus {
            canisters_remaining: remaining,
            completed_count: completed,
            failed_canisters: failed,
        };
    }

    /// A copy of the bulk operation's progress.
    pub fn get_bulk_operation_status(&self) -> (r: BulkIndividualCanisterOperationStatus)
        ensures
            r.canisters_remaining.seq() == self.bulk_operation_status.canisters_remaining.seq(),
            r.completed_count == self.bulk_operation_status.completed_count,
            r.failed_canisters@ == self.bulk_operation_status.failed_canisters@,
    {
        self.bulk_operation_status.duplicate()
    }

    /// Takes the canister away from the first user (in the map's order) who
    /// has it, and gives it back; refused when no user has it.
    pub fn take_user_canister(&mut self, canister_id: Principal) -> (r: Result<Principal, String>)
        ensures
            final(self).available_canisters == old(self).available_canisters,
            final(self).backup_canister_pool == old(self).backup_canister_pool,
            final(self).bulk_operation_status == old(self).bulk_operation_status,
            !assigned_canisters(old(self).user_principal_id_to_canister_id_map).contains(canister_id) ==> {
                &&& r matches Err(e) && e@ == "Canister not found"@
                &&& final(self).user_principal_id_to_canister_id_map.map() == old(self).user_principal_id_to_canister_id_map.map()
            },
            assigned_canisters(old(self).user_principal_id_to_canister_id_map).contains(canister_id) ==> {
                let pairs = old(self).user_principal_id_to_canister_id_map.pairs();
                &&& r == Ok::<Principal, String>(canister_id)
                &&& exists|i: int| 0 <= i < pairs.len() && pairs[i].1 == canister_id
                    && (forall|j: int| 0 <= j < i ==> #[trigger] pairs[j].1 != canister_id)
                    && final(self).user_principal_id_to_canister_id_map.map()
                        == old(self).user_principal_id_to_canister_id_map.map().remove(pairs[i].0)
            },
    {
        proof {
            use_type_invariant(&self.user_principal_id_to_canister_id_map);
        }
        let ghost kv0 = self.user_principal_id_to_canister_id_map;
        let ghost pairs0 = kv0.pairs();
        let pairs = self.user_principal_id_to_canister_id_map.as_pairs();
        let mut i: usize = 0;
        while i < pairs.len()
            invariant
                pairs@ == pairs0,
                i <= pairs@.len(),
                forall|j: int| 0 <= j < i ==> #[trigger] pairs0[j].1 != canister_id,
            ensures
                i <= pairs@.len(),
                i < pairs@.len() ==> pairs0[i as int].1 == canister_id,
                forall|j: int| 0 <= j < i ==> #[trigger] pairs0[j].1 != canister_id,
            decreases pairs@.len() - i,
        {
            if pairs[i].1.same_as(&canister_id) {
                break;
            }
            i = i + 1;
        }
        if i == pairs.len() {
            proof {
                if assigned_canisters(self.user_principal_id_to_canister_id_map).contains(canister_id) {
                    let k = choose|k: int| 0 <= k < assigned_canisters(self.user_principal_id_to_canister_id_map).len()
                        && assigned_canisters(self.user_principal_id_to_canister_id_map)[k] == canister_id;
                    assert(pairs0[k].1 == canister_id);
                }
            }
            return Err(literal("Canister not found"));
        }
        let user = pairs[i].0;
        proof {
            assert(assigned_canisters(self.user_principal_id_to_canister_id_map)[i as int] == canister_id);
            kv0.lemma_pair_in_map(i as int);
        }
        match self.user_principal_id_to_canister_id_map.remove(&user) {
            Some(canister) => Ok(canister),
            None => Err(literal("Canister not found")),
        }
    }

    /// Puts the canister into the backup pool.
    pub fn add_to_backup_pool(&mut self, canister_id: Principal)
        ensures
            final(self).backup_canister_pool.set() == old(self).backup_canister_pool.set().insert(canister_id),
            final(self).user_principal_id_to_canister_id_map == old(self).user_principal_id_to_canister_id_map,
            final(self).available_canisters == old(self).available_canisters,
            final(self).bulk_operation_status == old(self).bulk_operation_status,
    {
        let mut pool = PrincipalSet::new();
        std::mem::swap(&mut pool, &mut self.backup_canister_pool);
        pool.insert(canister_id);
        self.backup_canister_pool = pool;
    }
}

/// The platform orchestrator's principal.
pub fn platform_orchestrator() -> (r: Result<Principal, String>)
    ensures
        match principal_from_text_result(PLATFORM_ORCHESTRATOR_ID@) {
            Ok(bytes) => r matches Ok(p) && principal_wf(p) && principal_bytes(p) == bytes,
            Err(e) => r matches Err(m) && m@ == e,
        },
{
    principal_from_text(PLATFORM_ORCHESTRATOR_ID)
}

} // verus!
