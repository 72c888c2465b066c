use stock_alert::chat::{chat_server, resolve_room, ChatError, RoomStep};

#[test]
fn server_follows_the_first_colon() {
    assert_eq!(chat_server("@bot:example.com").unwrap(), "example.com");
    assert_eq!(chat_server("@bot:matrix.example.org:8448").unwrap(), "matrix.example.org:8448");
}

#[test]
fn malformed_handles_rejected() {
    assert_eq!(chat_server("bot:example.com"), Err(ChatError::InvalidHandle));
    assert_eq!(chat_server("@bot"), Err(ChatError::InvalidHandle));
    assert_eq!(chat_server(""), Err(ChatError::InvalidHandle));
}

#[test]
fn joined_room_is_reused() {
    let joined = vec!["!a:example.com".to_string(), "!b:example.com".to_string()];
    assert!(matches!(resolve_room(&joined, "!b:example.com"), Ok(RoomStep::UseJoined(1))));
}

#[test]
fn unknown_room_is_joined() {
    let joined = vec!["!a:example.com".to_string()];
    match resolve_room(&joined, "!c:example.com") {
        Ok(RoomStep::Join(id)) => assert_eq!(id, "!c:example.com"),
        other => panic!("unexpected {:?}", other),
    }
}

#[test]
fn malformed_room_id_rejected() {
    let joined: Vec<String> = Vec::new();
    assert!(matches!(resolve_room(&joined, "aslkdfasdlkfj1234a:example.com"), Err(ChatError::InvalidRoomId)));
    assert!(matches!(resolve_room(&joined, ""), Err(ChatError::InvalidRoomId)));
}
