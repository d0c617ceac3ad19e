use turntf::store::MemoryCursorState;
use turntf::types::{Message, MessageCursor, UserRef};

fn message(seq: i64) -> Message {
    Message {
        recipient: UserRef { node_id: 1, user_id: 2 },
        node_id: 1,
        seq,
        sender: UserRef { node_id: 1, user_id: 3 },
        body: vec![seq as u8],
        created_at_hlc: "hlc".to_string(),
    }
}

#[test]
fn seen_cursors_keep_first_confirmation_order_once() {
    let mut s = MemoryCursorState::new();
    s.save_message(message(20));
    s.save_cursor(MessageCursor { node_id: 1, seq: 20 });
    s.save_cursor(MessageCursor { node_id: 1, seq: 10 });
    s.save_cursor(MessageCursor { node_id: 1, seq: 20 });
    assert_eq!(
        s.load_seen_messages(),
        vec![MessageCursor { node_id: 1, seq: 20 }, MessageCursor { node_id: 1, seq: 10 }]
    );
}

#[test]
fn saved_messages_are_found_by_cursor() {
    let mut s = MemoryCursorState::new();
    assert!(!s.has_cursor(&MessageCursor { node_id: 1, seq: 5 }));
    s.save_message(message(5));
    assert!(s.has_cursor(&MessageCursor { node_id: 1, seq: 5 }));
    assert_eq!(s.message(&MessageCursor { node_id: 1, seq: 5 }), Some(message(5)));
    let mut newer = message(5);
    newer.body = b"new".to_vec();
    s.save_message(newer.clone());
    assert_eq!(s.message(&MessageCursor { node_id: 1, seq: 5 }), Some(newer));
    s.save_cursor(MessageCursor { node_id: 1, seq: 5 });
    assert!(s.has_cursor(&MessageCursor { node_id: 1, seq: 5 }));
    // A cursor confirmed without its message gets a placeholder.
    s.save_cursor(MessageCursor { node_id: 2, seq: 1 });
    let placeholder = s.message(&MessageCursor { node_id: 2, seq: 1 }).unwrap();
    assert!(placeholder.body.is_empty());
    assert_eq!(s.message(&MessageCursor { node_id: 9, seq: 9 }), None);
}
