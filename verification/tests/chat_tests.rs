use vaultchat::chat::{
    can_start_discussion, ciphertexts_to_decrypt, contact_from, conversation, find_contact,
    into_message, is_mine, message_style, order_messages_by_timestamp, outgoing_message,
    readable_ciphertext, websocket_url, Contact, InputContact, InputMessage, Message,
};

fn msg(id: &str, ts: i128) -> Message {
    Message {
        id: id.to_string(),
        sender_id: "me".to_string(),
        receiver_id: "you".to_string(),
        content: String::new(),
        timestamp: ts,
    }
}

fn input(id: &str, sender: &str, ts: i128) -> InputMessage {
    InputMessage {
        id: id.to_string(),
        sender_id: sender.to_string(),
        receiver_id: "other".to_string(),
        sender_content: format!("{id}-for-sender"),
        receiver_content: format!("{id}-for-receiver"),
        timestamp: ts,
    }
}

fn ids(v: &[Message]) -> Vec<&str> {
    v.iter().map(|m| m.id.as_str()).collect()
}

#[test]
fn ordering_is_stable() {
    let mut v = vec![msg("a", 3), msg("b", 1), msg("c", 3), msg("d", 2), msg("e", 1)];
    order_messages_by_timestamp(&mut v);
    assert_eq!(ids(&v), vec!["b", "e", "d", "a", "c"]);
}

#[test]
fn ordering_sorted_is_unchanged() {
    let mut v = vec![msg("a", -5), msg("b", 0), msg("c", 0), msg("d", 9)];
    order_messages_by_timestamp(&mut v);
    assert_eq!(ids(&v), vec!["a", "b", "c", "d"]);
    let mut again = v.clone();
    order_messages_by_timestamp(&mut again);
    assert_eq!(ids(&again), ids(&v));
    let mut empty: Vec<Message> = vec![];
    order_messages_by_timestamp(&mut empty);
    assert!(empty.is_empty());
}

#[test]
fn ciphertext_choice() {
    let mine = input("1", "me", 0);
    let theirs = input("2", "you", 0);
    assert_eq!(readable_ciphertext(&mine, "me"), "1-for-sender");
    assert_eq!(readable_ciphertext(&theirs, "me"), "2-for-receiver");
    assert_eq!(
        ciphertexts_to_decrypt(&vec![mine, theirs], "me"),
        vec!["1-for-sender".to_string(), "2-for-receiver".to_string()]
    );
}

#[test]
fn decryption_failure_is_shown() {
    let m = into_message(input("1", "me", 4), None);
    assert_eq!(m.content, "Error decrypting");
    assert_eq!(m.timestamp, 4);
    let m = into_message(input("1", "me", 4), Some("hello".to_string()));
    assert_eq!(m.content, "hello");
    assert_eq!(m.sender_id, "me");
}

#[test]
fn conversation_is_decrypted_and_ordered() {
    let inputs = vec![input("late", "me", 10), input("early", "you", 1), input("mid", "me", 5)];
    let plain = vec![Some("L".to_string()), None, Some("M".to_string())];
    let c = conversation(&inputs, &plain);
    assert_eq!(ids(&c), vec!["early", "mid", "late"]);
    assert_eq!(c[0].content, "Error decrypting");
    assert_eq!(c[1].content, "M");
    assert_eq!(c[2].content, "L");
}

#[test]
fn contacts_from_server() {
    let with_last = InputContact {
        id: "c1".to_string(),
        username: "bob".to_string(),
        public_key: "pk".to_string(),
        last_message: Some(input("m", "bob", 2)),
    };
    let c = contact_from(with_last, Some("hey".to_string()));
    assert_eq!(c.username, "bob");
    assert_eq!(c.last_message.unwrap().content, "hey");
    let without = InputContact {
        id: "c2".to_string(),
        username: "eve".to_string(),
        public_key: "pk2".to_string(),
        last_message: None,
    };
    assert!(contact_from(without, Some("ignored".to_string())).last_message.is_none());
}

fn contact(id: &str, name: &str) -> Contact {
    Contact { id: id.to_string(), username: name.to_string(), public_key: String::new(), last_message: None }
}

#[test]
fn finding_contacts() {
    let list = vec![contact("1", "a"), contact("2", "b"), contact("2", "c")];
    assert_eq!(find_contact(&list, "2"), Some(1));
    assert_eq!(find_contact(&list, "1"), Some(0));
    assert_eq!(find_contact(&list, "9"), None);
    assert_eq!(find_contact(&vec![], "1"), None);
}

#[test]
fn outgoing_payload() {
    let m = outgoing_message("me".to_string(), "you".to_string(), "for-you".to_string(), "for-me".to_string());
    assert_eq!(m.sender_id, "me");
    assert_eq!(m.receiver_id, "you");
    assert_eq!(m.receiver_content, "for-you");
    assert_eq!(m.sender_content, "for-me");
}

#[test]
fn message_sides() {
    let m = msg("x", 0);
    assert!(is_mine(&m, "me"));
    assert!(!is_mine(&m, "you"));
    let s = message_style(true);
    assert_eq!((s.chat_class, s.author), ("chat chat-end", "You"));
    assert_eq!(s.bubble_class, "chat-bubble chat-bubble-primary text-white");
    let s = message_style(false);
    assert_eq!((s.chat_class, s.author), ("chat chat-start", "Contact"));
    assert_eq!(s.header_class, "chat-header text-xs opacity-50 mb-1");
}

#[test]
fn socket_address() {
    assert_eq!(websocket_url("https:", "chat.example.org"), "wss://chat.example.org/ws");
    assert_eq!(websocket_url("http:", "localhost:8584"), "ws://localhost:8584/ws");
}

#[test]
fn starting_a_discussion() {
    assert!(can_start_discussion("bob", "hi"));
    assert!(!can_start_discussion(" ", "hi"));
    assert!(!can_start_discussion("bob", "\n"));
}

use vaultchat::chat::{
    chat_step, initial_chat_view, main_pane, main_visible, sidebar_visible, ChatAction, ChatEvent,
    MainPane,
};

#[test]
fn chat_view_transitions() {
    let v = initial_chat_view();
    assert!(sidebar_visible(&v) && !main_visible(&v));
    assert_eq!(main_pane(&v), MainPane::Placeholder);

    let (v, a) = chat_step(v, ChatEvent::StartAdding);
    assert!(matches!(a, ChatAction::Nothing));
    assert_eq!(main_pane(&v), MainPane::NewDiscussion);
    assert!(!sidebar_visible(&v) && main_visible(&v));

    let (v, a) = chat_step(v, ChatEvent::SelectContact("c7".to_string()));
    match a {
        ChatAction::LoadMessages(id) => assert_eq!(id, "c7"),
        ChatAction::Nothing => panic!("selecting a contact loads its messages"),
    }
    assert_eq!(v.selected_contact.as_deref(), Some("c7"));
    assert_eq!(main_pane(&v), MainPane::Conversation);

    let (v, a) = chat_step(v, ChatEvent::Back);
    assert!(matches!(a, ChatAction::Nothing));
    assert!(sidebar_visible(&v));
    assert_eq!(main_pane(&v), MainPane::Placeholder);
}

use vaultchat::chat::{
    initial_chat_page, chat_page_step, ChatPageAction, ChatPageEvent, LookupResult,
};

#[test]
fn chat_send_flow() {
    let contacts = vec![contact("c1", "bob"), contact("c2", "eve")];
    let page = initial_chat_page();
    let (page, a) = chat_page_step(page, ChatPageEvent::SendClicked, &contacts);
    assert!(matches!(a, ChatPageAction::Nothing));
    let (page, a) = chat_page_step(page, ChatPageEvent::SocketMessage, &contacts);
    assert!(matches!(a, ChatPageAction::Nothing));
    let (page, a) = chat_page_step(page, ChatPageEvent::View(ChatEvent::SelectContact("c2".to_string())), &contacts);
    assert!(matches!(a, ChatPageAction::LoadMessages(ref id) if id == "c2"));
    let (page, _) = chat_page_step(page, ChatPageEvent::InputEdited("hello".to_string()), &contacts);
    let (page, a) = chat_page_step(page, ChatPageEvent::SendClicked, &contacts);
    match a {
        ChatPageAction::SendThenReload { contact_id, text, .. } => {
            assert_eq!(contact_id, "c2");
            assert_eq!(text, "hello");
        }
        _ => panic!("sending to the open discussion"),
    }
    assert_eq!(page.input_text, "");
    let (_, a) = chat_page_step(page, ChatPageEvent::SocketMessage, &contacts);
    assert!(matches!(a, ChatPageAction::LoadMessages(ref id) if id == "c2"));
}

#[test]
fn chat_new_discussion_flow() {
    let contacts: Vec<Contact> = vec![];
    let page = initial_chat_page();
    let (page, _) = chat_page_step(page, ChatPageEvent::View(ChatEvent::StartAdding), &contacts);
    let (page, _) = chat_page_step(page, ChatPageEvent::PseudoEdited("bob".to_string()), &contacts);
    let (page, _) = chat_page_step(page, ChatPageEvent::InputEdited("hi".to_string()), &contacts);
    let (page, a) = chat_page_step(page, ChatPageEvent::StartClicked, &contacts);
    match a {
        ChatPageAction::LookUpPseudo { pseudo, text } => assert_eq!((pseudo.as_str(), text.as_str()), ("bob", "hi")),
        _ => panic!("the pseudo is looked up"),
    }
    let (page, a) = chat_page_step(page, ChatPageEvent::LookupAnswered(LookupResult::UnknownPseudo("bob".to_string())), &contacts);
    assert_eq!(page.error_message.as_deref(), Some("User 'bob' not found."));
    assert!(matches!(a, ChatPageAction::ClearErrorAfter { delay_ms: 5000 }));
    let (page, _) = chat_page_step(page, ChatPageEvent::ErrorExpired, &contacts);
    assert!(page.error_message.is_none());
    let (page, a) = chat_page_step(
        page,
        ChatPageEvent::LookupAnswered(LookupResult::Found { id: "c9".to_string(), public_key: "k".to_string(), text: "hi".to_string() }),
        &contacts,
    );
    assert!(matches!(a, ChatPageAction::SendFirstMessage { ref contact_id, .. } if contact_id == "c9"));
    let (page, a) = chat_page_step(page, ChatPageEvent::FirstMessageSent(Err("offline".to_string())), &contacts);
    assert_eq!(page.error_message.as_deref(), Some("Failed to send message: offline"));
    assert!(matches!(a, ChatPageAction::ClearErrorAfter { .. }));
    assert_eq!(page.new_pseudo, "bob");
    assert_eq!(page.input_text, "hi");
    let (page, _) = chat_page_step(page, ChatPageEvent::LookupAnswered(LookupResult::NetworkError("x".to_string())), &contacts);
    assert_eq!(page.error_message.as_deref(), Some("Network error: x"));
    let (page, _) = chat_page_step(page, ChatPageEvent::LookupAnswered(LookupResult::BadData("y".to_string())), &contacts);
    assert_eq!(page.error_message.as_deref(), Some("Failed to parse user data: y"));
    let (page, a) = chat_page_step(page, ChatPageEvent::FirstMessageSent(Ok(())), &contacts);
    assert!(matches!(a, ChatPageAction::Nothing));
    assert!(page.view.is_adding_contact);
    assert_eq!(page.new_pseudo, "");
    assert_eq!(page.input_text, "");
}

use vaultchat::chat::{contacts_from, send_step, start_send, SendAction, SendEvent, SendPhase, SendState};

fn started() -> (SendState, SendAction) {
    start_send(
        "u1".to_string(),
        "c1".to_string(),
        "hello".to_string(),
        "contact-key".to_string(),
        "own-key".to_string(),
    )
}

#[test]
fn sending_encrypts_twice_then_posts_ciphertexts() {
    let (state, action) = started();
    match action {
        SendAction::Encrypt { key, text } => assert_eq!((key.as_str(), text.as_str()), ("contact-key", "hello")),
        other => panic!("unexpected {:?}", other),
    }
    let (state, action) = send_step(state, SendEvent::Encrypted(Ok("for-contact".to_string())));
    match action {
        SendAction::Encrypt { key, text } => assert_eq!((key.as_str(), text.as_str()), ("own-key", "hello")),
        other => panic!("unexpected {:?}", other),
    }
    let (state, action) = send_step(state, SendEvent::Encrypted(Ok("for-me".to_string())));
    match action {
        SendAction::Post(m) => {
            assert_eq!(m.sender_id, "u1");
            assert_eq!(m.receiver_id, "c1");
            assert_eq!(m.receiver_content, "for-contact");
            assert_eq!(m.sender_content, "for-me");
        }
        other => panic!("unexpected {:?}", other),
    }
    assert!(matches!(state.phase, SendPhase::Posting));
    let (state, action) = send_step(state, SendEvent::Posted(Ok(201)));
    assert!(matches!(action, SendAction::Done(Ok(()))));
    assert!(matches!(state.phase, SendPhase::Finished));
    let (_, action) = send_step(state, SendEvent::Posted(Ok(200)));
    assert!(matches!(action, SendAction::Nothing));
}

#[test]
fn sending_stops_when_encryption_fails() {
    let (state, _) = started();
    let (state, action) = send_step(state, SendEvent::Encrypted(Err("bad key".to_string())));
    match action {
        SendAction::Done(Err(e)) => assert_eq!(e, "Failed to encrypt message"),
        other => panic!("unexpected {:?}", other),
    }
    let (_, action) = send_step(state, SendEvent::Encrypted(Ok("late".to_string())));
    assert!(matches!(action, SendAction::Nothing));

    let (state, _) = started();
    let (state, _) = send_step(state, SendEvent::Encrypted(Ok("for-contact".to_string())));
    let (state, action) = send_step(state, SendEvent::Encrypted(Err("bad key".to_string())));
    match action {
        SendAction::Done(Err(e)) => assert_eq!(e, "Failed to encrypt message"),
        other => panic!("unexpected {:?}", other),
    }
    assert!(matches!(state.phase, SendPhase::Finished));
}

#[test]
fn sending_reports_the_server_answer() {
    let (state, _) = started();
    let (state, _) = send_step(state, SendEvent::Encrypted(Ok("a".to_string())));
    let (posting, _) = send_step(state, SendEvent::Encrypted(Ok("b".to_string())));
    let (_, action) = send_step(posting.clone(), SendEvent::Posted(Ok(404)));
    match action {
        SendAction::Done(Err(e)) => assert_eq!(e, "Message send failed: 404 Not Found"),
        other => panic!("unexpected {:?}", other),
    }
    let (_, action) = send_step(posting.clone(), SendEvent::Posted(Ok(500)));
    match action {
        SendAction::Done(Err(e)) => assert_eq!(e, "Message send failed: 500 Internal Server Error"),
        other => panic!("unexpected {:?}", other),
    }
    let (_, action) = send_step(posting.clone(), SendEvent::Posted(Err("connection refused".to_string())));
    match action {
        SendAction::Done(Err(e)) => assert_eq!(e, "Network error: connection refused"),
        other => panic!("unexpected {:?}", other),
    }
    let (same, action) = send_step(posting, SendEvent::Encrypted(Ok("stray".to_string())));
    assert!(matches!(action, SendAction::Nothing));
    assert!(matches!(same.phase, SendPhase::Posting));
}

#[test]
fn sending_ignores_an_early_answer() {
    let (state, _) = started();
    let (state, action) = send_step(state, SendEvent::Posted(Ok(200)));
    assert!(matches!(action, SendAction::Nothing));
    assert!(matches!(state.phase, SendPhase::EncryptingForContact));
}

#[test]
fn contact_list_from_server() {
    let inputs = vec![
        InputContact {
            id: "c1".to_string(),
            username: "bob".to_string(),
            public_key: "pk".to_string(),
            last_message: Some(input("m", "bob", 2)),
        },
        InputContact {
            id: "c2".to_string(),
            username: "eve".to_string(),
            public_key: "pk2".to_string(),
            last_message: None,
        },
        InputContact {
            id: "c3".to_string(),
            username: "dan".to_string(),
            public_key: "pk3".to_string(),
            last_message: Some(input("n", "me", 5)),
        },
    ];
    let plaintexts = vec![Some("hey".to_string()), None, None];
    let contacts = contacts_from(&inputs, &plaintexts);
    assert_eq!(contacts.len(), 3);
    assert_eq!(contacts[0].username, "bob");
    assert_eq!(contacts[0].last_message.as_ref().unwrap().content, "hey");
    assert!(contacts[1].last_message.is_none());
    assert_eq!(contacts[2].id, "c3");
    assert_eq!(contacts[2].last_message.as_ref().unwrap().content, "Error decrypting");
    assert_eq!(contacts[2].last_message.as_ref().unwrap().timestamp, 5);
}
