use stock_alert::chat::joined_room_index;
use stock_alert::inventory::{asset_url, first_item, login_url, normalize_base_url, HomeBoxItem};

#[test]
fn trailing_slashes_removed() {
    assert_eq!(normalize_base_url("https://inv.example.com///"), "https://inv.example.com");
    assert_eq!(normalize_base_url("https://inv.example.com"), "https://inv.example.com");
    assert_eq!(normalize_base_url("///"), "");
    assert_eq!(normalize_base_url(""), "");
}

#[test]
fn endpoint_urls() {
    assert_eq!(login_url("https://inv.example.com"), "https://inv.example.com/api/v1/users/login");
    assert_eq!(
        asset_url("https://inv.example.com", "000-001"),
        "https://inv.example.com/api/v1/assets/000-001"
    );
}

#[test]
fn first_record_stands_for_the_asset() {
    let rec = |id: &str| HomeBoxItem {
        asset_id: "000-001".to_string(),
        id: id.to_string(),
        name: "Widget".to_string(),
        quantity: 1,
    };
    assert!(first_item(Vec::new()).is_none());
    assert_eq!(first_item(vec![rec("a"), rec("b")]).unwrap().id, "a");
}

#[test]
fn joined_room_found_by_identifier() {
    let joined = vec!["!a:x".to_string(), "!b:x".to_string(), "!b:x".to_string()];
    assert_eq!(joined_room_index(&joined, &"!b:x".to_string()), Some(1));
    assert_eq!(joined_room_index(&joined, &"!c:x".to_string()), None);
    assert_eq!(joined_room_index(&Vec::new(), &"!a:x".to_string()), None);
}
