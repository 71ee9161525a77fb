use backend::models::{
    convert_db_items, convert_i8_to_u8, get_key, join_key, Action, Condition, ItemType, Location, RedisAction,
};

#[test]
fn key_prefixes_follow_the_table() {
    assert_eq!(RedisAction::Auth.as_str(), "auth_id");
    assert_eq!(RedisAction::Forgot.as_str(), "forgot_id");
    assert_eq!(RedisAction::LockedTime.as_str(), "locked_timestamp");
    assert_eq!(RedisAction::Session.as_str(), "session_id");
    assert_eq!(RedisAction::LockedTemporary.as_str(), "temporary_lock");
    assert_eq!(RedisAction::Update.as_str(), "update");
    assert_eq!(RedisAction::SessionStore.as_str(), "sessions");
    assert_eq!(RedisAction::LockedVerify.as_str(), "verify_lock");
    assert_eq!(RedisAction::LockedAuth.as_str(), "auth_lock");
    assert_eq!(RedisAction::LockedForgot.as_str(), "forgot_lock");
}

#[test]
fn keys_join_prefix_and_id() {
    assert_eq!(get_key(RedisAction::LockedAuth, "abc"), "auth_lock:abc");
    assert_eq!(join_key("sessions", "a@purdue.edu"), "sessions:a@purdue.edu");
    assert_eq!(get_key(RedisAction::Session, ""), "session_id:");
}

#[test]
fn tiny_integers_lose_their_sign() {
    assert_eq!(convert_i8_to_u8(&5), 5);
    assert_eq!(convert_i8_to_u8(&-7), 7);
    assert_eq!(convert_i8_to_u8(&127), 127);
    assert_eq!(convert_i8_to_u8(&-128), 0);
}

#[test]
fn enum_codes_round_trip() {
    assert_eq!(ItemType::try_from_u8(2), Some(ItemType::Books));
    assert_eq!(ItemType::try_from_u8(6), None);
    assert_eq!(Condition::try_from_u8(0), Some(Condition::Excellent));
    assert_eq!(Condition::try_from_u8(3), None);
    assert_eq!(Location::try_from_u8(5), Some(Location::ThirdStreetSuites));
    assert_eq!(Location::try_from_u8(9), None);
    assert_eq!(Action::Login, Action::Login);
}

#[test]
fn rows_become_items_with_fallbacks() {
    let rows = vec![
        (7u128, 1i8, "Lamp".to_string(), 1i8, 2i8, "Bright".to_string()),
        (8u128, -3i8, "Desk".to_string(), 9i8, 40i8, "Oak".to_string()),
    ];
    let items = convert_db_items(&rows);
    assert_eq!(items.len(), 2);
    assert_eq!(items[0].item_id, 7);
    assert_eq!(items[0].item_type, "Electronics");
    assert_eq!(items[0].title, "Lamp");
    assert_eq!(items[0].condition, "Good");
    assert_eq!(items[0].location, "HarrisonHall");
    assert_eq!(items[0].description, "Bright");
    assert_eq!(items[1].item_type, "Kitchen");
    assert_eq!(items[1].condition, "Fair");
    assert_eq!(items[1].location, "CaryQuadEast");
    assert!(convert_db_items(&Vec::new()).is_empty());
}
