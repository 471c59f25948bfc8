use hot_or_not_backend::dedup_index::api::{
    add_video_to_index, get_version, is_duplicate, list_hashes, unique_hash_count, CanisterData, ListError,
    LISTING_SIZE_LIMIT_EXCLUSIVE,
};

#[test]
fn indexed_hashes_are_duplicates() {
    let mut data = CanisterData::default();
    assert_eq!(get_version(&data), "v1.0.0");
    assert!(!is_duplicate(&data, "h1".to_string()));
    add_video_to_index(&mut data, "v1".to_string(), ("h1".to_string(), 10));
    assert!(is_duplicate(&data, "h1".to_string()));
    assert_eq!(unique_hash_count(&data), 1);
    // A second video with the same hash takes the hash's place.
    add_video_to_index(&mut data, "v2".to_string(), ("h1".to_string(), 20));
    assert_eq!(unique_hash_count(&data), 1);
    let page = list_hashes(&data, false, 0, 10).unwrap();
    assert_eq!(page.len(), 1);
    assert_eq!(page[0].1.as_slice(), &[("v2".to_string(), 20u64)]);
}

#[test]
fn a_video_id_that_is_a_hash_changes_nothing() {
    let mut data = CanisterData::default();
    add_video_to_index(&mut data, "v1".to_string(), ("same".to_string(), 1));
    add_video_to_index(&mut data, "same".to_string(), ("other".to_string(), 2));
    assert!(!is_duplicate(&data, "other".to_string()));
    assert_eq!(unique_hash_count(&data), 1);
}

#[test]
fn listing_is_in_string_order_and_paged() {
    let mut data = CanisterData::default();
    for h in ["b", "a", "ab", "c", "B"] {
        add_video_to_index(&mut data, format!("id-{}", h), (h.to_string(), 0));
    }
    let all: Vec<String> = list_hashes(&data, false, 0, 10).unwrap().into_iter().map(|e| e.0).collect();
    assert_eq!(all, vec!["B", "a", "ab", "b", "c"]);
    let second: Vec<String> = list_hashes(&data, false, 1, 2).unwrap().into_iter().map(|e| e.0).collect();
    assert_eq!(second, vec!["ab", "b"]);
    assert_eq!(list_hashes(&data, false, 3, 2).unwrap_err(), ListError::PageOutOfRange);
    assert_eq!(list_hashes(&data, false, usize::MAX, 2).unwrap_err(), ListError::WillOverflow);
    assert_eq!(list_hashes(&data, false, 0, LISTING_SIZE_LIMIT_EXCLUSIVE + 1).unwrap_err(), ListError::SizeNotAllowed);
    assert_eq!(list_hashes(&data, true, 0, LISTING_SIZE_LIMIT_EXCLUSIVE + 1).unwrap().len(), 5);
}
