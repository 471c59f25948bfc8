use hot_or_not_backend::principal::Principal;
use hot_or_not_backend::user_index::canister::{platform_orchestrator, CanisterData};

fn p(n: u8) -> Principal {
    Principal::from_slice(&[n, 1])
}

#[test]
fn bulk_operation_accounts_for_every_canister() {
    let mut data = CanisterData::new();
    data.user_principal_id_to_canister_id_map.insert(p(1), p(11));
    data.available_canisters.insert(p(21));
    data.backup_canister_pool.insert(p(31));
    let ids = data.all_canister_ids();
    assert_eq!(ids, vec![p(11), p(21), p(31)]);
    data.start_bulk_operation(&ids);
    assert_eq!(data.get_bulk_operation_status().canisters_remaining.len(), 3);
    data.record_bulk_result(p(11), Ok(()));
    data.record_bulk_result(p(21), Err("no".to_string()));
    let status = data.get_bulk_operation_status();
    assert_eq!(status.canisters_remaining.len(), 1);
    assert_eq!(status.completed_count, 1);
    assert_eq!(status.failed_canisters, vec![(p(21), "no".to_string())]);
}

#[test]
fn uninstalling_takes_the_canister_from_its_user() {
    let mut data = CanisterData::new();
    data.user_principal_id_to_canister_id_map.insert(p(1), p(11));
    data.user_principal_id_to_canister_id_map.insert(p(2), p(12));
    assert_eq!(data.take_user_canister(p(99)).unwrap_err(), "Canister not found");
    assert_eq!(data.take_user_canister(p(12)), Ok(p(12)));
    assert!(!data.user_principal_id_to_canister_id_map.contains_key(&p(2)));
    assert!(data.user_principal_id_to_canister_id_map.contains_key(&p(1)));
    data.add_to_backup_pool(p(12));
    assert!(data.backup_canister_pool.contains(&p(12)));
}

#[test]
fn orchestrator_id_parses() {
    let orchestrator = platform_orchestrator().unwrap();
    assert_eq!(orchestrator.to_text(), "74zq4-iqaaa-aaaam-ab53a-cai");
}

#[test]
fn uninstall_steps_leave_the_bulk_status_alone() {
    let mut data = CanisterData::new();
    data.user_principal_id_to_canister_id_map.insert(p(1), p(11));
    let ids = data.all_canister_ids();
    data.start_bulk_operation(&ids);
    assert!(data.take_user_canister(p(99)).is_err());
    data.add_to_backup_pool(p(11));
    let status = data.get_bulk_operation_status();
    assert_eq!(status.canisters_remaining.len(), 1);
    assert_eq!(status.completed_count, 0);
    assert!(status.failed_canisters.is_empty());
}
