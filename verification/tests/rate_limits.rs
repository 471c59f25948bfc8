use hot_or_not_backend::principal::{principal_from_text, Principal};
use hot_or_not_backend::rate_limits::api::{
    check_rate_limit, create_video_generation_request, decrement_video_generation_counter,
    get_property_rate_limit_configs, get_rate_limit_status, set_principal_rate_limit, set_property_rate_limit_config, increment_request_count, increment_request_count_v1, poll_video_generation_status,
    session_type_from_reply, update_video_generation_status,
};
use hot_or_not_backend::rate_limits::canister::CanisterData;
use hot_or_not_backend::rate_limits::types::VideoGenRequestStatus;
use hot_or_not_backend::user_info::types::SessionType;

/// Some instant, in nanoseconds since the epoch.
const NOW: u64 = 1_700_000_000_000_000_000;
const SECOND: u64 = 1_000_000_000;

fn test_principal() -> Principal {
    principal_from_text("2chl6-4hpzw-vqaaa-aaaaa-c").unwrap()
}

#[test]
fn test_blacklist_blocks_rate_limits() {
    let mut data = CanisterData::default();
    let principal = test_principal();
    let property = "test_property";

    assert!(!data.is_rate_limited_with_property(&principal, property, false, NOW));

    data.add_to_blacklist(property.to_string());

    assert!(data.is_rate_limited_with_property(&principal, property, false, NOW));

    data.remove_from_blacklist(property);

    assert!(!data.is_rate_limited_with_property(&principal, property, false, NOW));
}

#[test]
fn test_blacklist_all_blocks_all_properties() {
    let mut data = CanisterData::default();
    let principal = test_principal();

    let properties = vec!["prop1", "prop2", "default"];

    for prop in &properties {
        assert!(!data.is_rate_limited_with_property(&principal, prop, false, NOW));
    }

    data.add_to_blacklist("all".to_string());

    for prop in &properties {
        assert!(data.is_rate_limited_with_property(&principal, prop, false, NOW));
    }

    data.clear_blacklist();

    for prop in &properties {
        assert!(!data.is_rate_limited_with_property(&principal, prop, false, NOW));
    }
}

#[test]
fn principal_text_round_trips() {
    let principal = test_principal();
    assert_eq!(principal.to_text(), "2chl6-4hpzw-vqaaa-aaaaa-c");
    assert!(principal_from_text("not a principal").is_err());
}

#[test]
fn unregistered_principal_is_limited_after_five_requests() {
    let mut data = CanisterData::default();
    let p = test_principal();
    for _ in 0..5 {
        let r = increment_request_count(&mut data, p, false, p, "default".to_string(), false, NOW);
        assert_eq!(r, Ok("Request count incremented".to_string()));
    }
    let status = get_rate_limit_status(&data, p, "default".to_string(), false, NOW).unwrap();
    assert_eq!(status.request_count, 5);
    assert!(status.is_limited);
    assert_eq!(check_rate_limit(&data, p, "default".to_string(), false, NOW), Err("Rate limit exceeded".to_string()));
    let r = increment_request_count(&mut data, p, false, p, "default".to_string(), false, NOW);
    assert_eq!(r, Err("Rate limit exceeded".to_string()));
    // A registered principal gets ten.
    assert_eq!(check_rate_limit(&data, p, "default".to_string(), true, NOW), Ok("Within rate limit".to_string()));
    // A day later the window has passed.
    let later = NOW + 86_400 * SECOND;
    assert_eq!(check_rate_limit(&data, p, "default".to_string(), false, later), Ok("Within rate limit".to_string()));
}

#[test]
fn only_the_principal_or_an_admin_may_count() {
    let mut data = CanisterData::default();
    let p = test_principal();
    let other = Principal::from_slice(&[9, 9, 9]);
    let r = increment_request_count(&mut data, other, false, p, "default".to_string(), false, NOW);
    assert_eq!(
        r,
        Err("Unauthorized: Only admin, controller, or the principal itself can increment request count".to_string())
    );
    let r = increment_request_count(&mut data, other, true, p, "default".to_string(), false, NOW);
    assert_eq!(r, Ok("Request count incremented".to_string()));
}

#[test]
fn paid_request_reports_its_amount() {
    let mut data = CanisterData::default();
    let p = test_principal();
    let r = increment_request_count_v1(&mut data, p, false, p, "default".to_string(), false, true, Some("5".to_string()), NOW);
    assert_eq!(r, Ok("Paid request processed. Amount: Some(\"5\")".to_string()));
    let r = increment_request_count_v1(&mut data, p, false, p, "default".to_string(), false, true, None, NOW);
    assert_eq!(r, Ok("Paid request processed. Amount: None".to_string()));
    // Paid requests leave the principal's own counter alone.
    let status = get_rate_limit_status(&data, p, "default".to_string(), false, NOW).unwrap();
    assert_eq!(status.request_count, 0);
}

#[test]
fn failed_video_request_gives_its_request_back() {
    let mut data = CanisterData::default();
    let p = test_principal();
    let key = create_video_generation_request(&mut data, p, "model".to_string(), "a cat".to_string(), "video".to_string(), false, NOW).unwrap();
    assert_eq!(key.counter, 1);
    assert_eq!(get_rate_limit_status(&data, p, "video".to_string(), false, NOW).unwrap().request_count, 1);
    // A pending request cannot give its request back.
    assert_eq!(
        decrement_video_generation_counter(&mut data, key, "video".to_string(), NOW),
        Err("Can only decrement counter for failed requests".to_string())
    );
    update_video_generation_status(&mut data, key, VideoGenRequestStatus::Failed("boom".to_string()), NOW).unwrap();
    assert!(matches!(poll_video_generation_status(&data, key), Ok(VideoGenRequestStatus::Failed(_))));
    assert_eq!(decrement_video_generation_counter(&mut data, key, "video".to_string(), NOW), Ok(()));
    assert_eq!(get_rate_limit_status(&data, p, "video".to_string(), false, NOW).unwrap().request_count, 0);
    assert_eq!(
        decrement_video_generation_counter(&mut data, key, "".to_string(), NOW),
        Err("Invalid property".to_string())
    );
}

#[test]
fn video_request_inputs_are_checked() {
    let mut data = CanisterData::default();
    let p = test_principal();
    let r = create_video_generation_request(&mut data, p, "".to_string(), "a cat".to_string(), "video".to_string(), false, NOW);
    assert_eq!(r.unwrap_err(), "Invalid model name");
    let r = create_video_generation_request(&mut data, p, "m".to_string(), "".to_string(), "video".to_string(), false, NOW);
    assert_eq!(r.unwrap_err(), "Invalid prompt length");
    let r = create_video_generation_request(&mut data, p, "m".to_string(), "x".to_string(), "".to_string(), false, NOW);
    assert_eq!(r.unwrap_err(), "Invalid property");
}

#[test]
fn session_type_reply_errors_are_prefixed() {
    assert!(matches!(session_type_from_reply(Ok(SessionType::RegisteredSession)), Ok(SessionType::RegisteredSession)));
    assert_eq!(
        session_type_from_reply(Err("no such user".to_string())).unwrap_err(),
        "User info service error: no such user"
    );
}

#[test]
fn property_configs_are_listed_in_property_order() {
    let mut data = CanisterData::default();
    for property in ["video", "chat", "Zed", "chat2"] {
        set_property_rate_limit_config(&mut data, property.to_string(), 3, 2, 60).unwrap();
    }
    let names: Vec<String> = get_property_rate_limit_configs(&data).into_iter().map(|c| c.property).collect();
    assert_eq!(names, vec!["Zed", "chat", "chat2", "video"]);
}

#[test]
fn paid_request_ignores_the_principals_own_window() {
    let mut data = CanisterData::default();
    let p = test_principal();
    set_principal_rate_limit(&mut data, p, "video".to_string(), 1, u64::MAX, NOW).unwrap();
    assert!(data.property_increment_fits_now("video", NOW));
    assert!(!data.own_increment_fits_now(&p, "video", NOW));
    let r = increment_request_count_v1(&mut data, p, false, p, "video".to_string(), false, true, None, NOW);
    assert_eq!(r, Ok("Paid request processed. Amount: None".to_string()));
}
